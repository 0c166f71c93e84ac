//! The proxy's configuration: where to forward, where to listen, and the
//! two timeouts. A configuration is made once, checked while it is made,
//! and only read afterwards.

use vstd::prelude::*;
use vstd::string::*;
use crate::syntax::{url_is_valid, validate_url};
use crate::target::{has_origin, is_origin, origin_of, split_origin};

verus! {

/// The upstream that is used where none is given.
pub const DEFAULT_UPSTREAM: &'static str = "http://127.0.0.1:3000";

/// The port that is listened on where none is given.
pub const DEFAULT_PORT: u16 = 8080;

/// Idle time, in milliseconds, after which the proxy stops itself.
pub const DEFAULT_IDLE_TIMEOUT_MS: u64 = 900_000;

/// Time, in milliseconds, that one request may take at the upstream.
pub const DEFAULT_REQUEST_TIMEOUT_MS: u64 = 10_000;

/// Time, in milliseconds, between two ticks of the idle watchdog.
pub const TICK_INTERVAL_MS: u64 = 1_000;

/// Why a configuration was refused.
#[derive(Clone, Copy, Debug, PartialEq, Eq, Structural)]
pub enum ConfigError {
    /// The upstream is not a URL.
    InvalidUpstream,
    /// The upstream is a URL, but does not start with a scheme, `://` and
    /// a host, so there is nothing to forward to.
    UpstreamWithoutOrigin,
}

/// The mathematical content of a [`ProxyConfig`].
pub struct ProxyConfigView {
    /// Scheme, `://` and authority of the upstream.
    pub upstream_origin: Seq<char>,
    pub port: u16,
    pub idle_timeout: nat,
    pub request_timeout: nat,
}

/// A checked configuration.
#[derive(Debug, PartialEq, Eq)]
pub struct ProxyConfig {
    upstream_origin: String,
    port: u16,
    idle_timeout: u64,
    request_timeout: u64,
}

impl View for ProxyConfig {
    type V = ProxyConfigView;

    closed spec fn view(&self) -> ProxyConfigView {
        ProxyConfigView {
            upstream_origin: self.upstream_origin@,
            port: self.port,
            idle_timeout: self.idle_timeout as nat,
            request_timeout: self.request_timeout as nat,
        }
    }
}

/// What making a configuration comes to, given whether the upstream is a
/// valid URL: the error for an invalid one, the error for one without an
/// origin, and else the configuration that keeps the upstream's origin
/// and drops whatever path, query or fragment the URL went on with.
pub open spec fn checked_config(
    upstream: Seq<char>,
    upstream_valid: bool,
    port: u16,
    idle_timeout: u64,
    request_timeout: u64,
) -> Result<ProxyConfigView, ConfigError> {
    if !upstream_valid {
        Err(ConfigError::InvalidUpstream)
    } else if !has_origin(upstream) {
        Err(ConfigError::UpstreamWithoutOrigin)
    } else {
        Ok(
            ProxyConfigView {
                upstream_origin: origin_of(upstream),
                port,
                idle_timeout: idle_timeout as nat,
                request_timeout: request_timeout as nat,
            },
        )
    }
}

/// `made` is the outcome `expected`, the configuration taken by its view.
pub open spec fn config_outcome_is(
    made: Result<ProxyConfig, ConfigError>,
    expected: Result<ProxyConfigView, ConfigError>,
) -> bool {
    match made {
        Ok(config) => expected == Ok::<ProxyConfigView, ConfigError>(config@),
        Err(error) => expected == Err::<ProxyConfigView, ConfigError>(error),
    }
}

impl ProxyConfig {
    #[verifier::type_invariant]
    spec fn upstream_is_an_origin(self) -> bool {
        is_origin(self.upstream_origin@)
    }

    /// Checks `upstream` and makes the configuration.
    ///
    /// The upstream has to be a valid URL and has to start with a scheme,
    /// `://` and a host. Timeouts are in milliseconds.
    pub fn new(upstream: &str, port: u16, idle_timeout: u64, request_timeout: u64) -> (made:
        Result<ProxyConfig, ConfigError>)
        ensures
            config_outcome_is(
                made,
                checked_config(
                    upstream@,
                    url_is_valid(upstream@),
                    port,
                    idle_timeout,
                    request_timeout,
                ),
            ),
            made matches Ok(config) ==> is_origin(config@.upstream_origin),
    {
        let upstream_valid = validate_url(upstream);
        ProxyConfig::from_validation(upstream, upstream_valid, port, idle_timeout, request_timeout)
    }

    /// Makes the configuration for an upstream whose validity as a URL
    /// has been decided already.
    pub fn from_validation(
        upstream: &str,
        upstream_valid: bool,
        port: u16,
        idle_timeout: u64,
        request_timeout: u64,
    ) -> (made: Result<ProxyConfig, ConfigError>)
        ensures
            config_outcome_is(
                made,
                checked_config(upstream@, upstream_valid, port, idle_timeout, request_timeout),
            ),
            made matches Ok(config) ==> is_origin(config@.upstream_origin),
    {
        if !upstream_valid {
            return Err(ConfigError::InvalidUpstream);
        }
        match split_origin(upstream) {
            None => Err(ConfigError::UpstreamWithoutOrigin),
            Some(upstream_origin) => Ok(
                ProxyConfig { upstream_origin, port, idle_timeout, request_timeout },
            ),
        }
    }

    /// Scheme, `://` and authority of the upstream.
    pub fn upstream_origin(&self) -> (origin: &str)
        ensures
            origin@ == self@.upstream_origin,
            is_origin(origin@),
    {
        proof {
            use_type_invariant(self);
        }
        self.upstream_origin.as_str()
    }

    /// The port to listen on.
    pub fn port(&self) -> (port: u16)
        ensures
            port == self@.port,
    {
        self.port
    }

    /// Idle time, in milliseconds, after which the proxy stops itself.
    pub fn idle_timeout(&self) -> (idle_timeout: u64)
        ensures
            idle_timeout == self@.idle_timeout,
    {
        self.idle_timeout
    }

    /// Time, in milliseconds, that one request may take at the upstream.
    pub fn request_timeout(&self) -> (request_timeout: u64)
        ensures
            request_timeout == self@.request_timeout,
    {
        self.request_timeout
    }
}

} // verus!
