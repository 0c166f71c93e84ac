//! The forwarding handler's decisions: what counts as activity, where a
//! request goes at the upstream, and what the caller gets back.
//!
//! Sending the request and waiting for the upstream are not done here.
//! Whoever does them hands the outcome to [`conclude`].

use vstd::prelude::*;
use vstd::string::*;
use crate::clock::{elapsed_between, ActivityClock};
use crate::config::ProxyConfig;
use crate::syntax::{parses_as_uri, uri_is_well_formed};
use crate::target::{
    is_request_target, join_path_and_query, lemma_target_keeps_origin_and_path, origin_of, path_of,
    query_of, text_of, upstream_target,
};

verus! {

/// Status sent when the upstream did not answer in time.
pub const STATUS_REQUEST_TIMEOUT: u16 = 408;

/// Status sent when the target at the upstream could not be built.
pub const STATUS_INTERNAL_SERVER_ERROR: u16 = 500;

/// Status sent when the upstream could not be reached.
pub const STATUS_BAD_GATEWAY: u16 = 502;

/// Why one request could not be answered by the upstream. Each failure
/// concerns that request alone.
#[derive(Clone, Copy, Debug, PartialEq, Eq, Structural)]
pub enum ForwardError {
    /// Upstream origin, path and query together are not a well-formed URI.
    MalformedTarget,
    /// The request could not be sent, or no response came back.
    UpstreamUnreachable,
    /// The round trip took longer than the per-request timeout.
    TimedOut,
}

/// What the caller receives.
#[derive(Debug, PartialEq, Eq)]
pub enum Reply<R> {
    /// The upstream's response, as it came.
    Upstream(R),
    /// A response that carries nothing but this status.
    Status(u16),
}

/// The status that reports `error` to the caller.
pub open spec fn status_of(error: ForwardError) -> u16 {
    match error {
        ForwardError::MalformedTarget => STATUS_INTERNAL_SERVER_ERROR,
        ForwardError::UpstreamUnreachable => STATUS_BAD_GATEWAY,
        ForwardError::TimedOut => STATUS_REQUEST_TIMEOUT,
    }
}

/// The reply to a request whose forwarding ended in `outcome`: a response
/// of the upstream goes back untouched, a failure becomes its status.
pub open spec fn reply_to<R>(outcome: Result<R, ForwardError>) -> Reply<R> {
    match outcome {
        Ok(response) => Reply::Upstream(response),
        Err(error) => Reply::Status(status_of(error)),
    }
}

/// A target is used if it is a well-formed URI and refused if not.
pub open spec fn checked_target(target: Seq<char>, well_formed: bool) -> Result<
    Seq<char>,
    ForwardError,
> {
    if well_formed {
        Ok(target)
    } else {
        Err(ForwardError::MalformedTarget)
    }
}

/// `made` is the outcome `expected`, the target taken by its characters.
pub open spec fn target_outcome_is(
    made: Result<String, ForwardError>,
    expected: Result<Seq<char>, ForwardError>,
) -> bool {
    match made {
        Ok(target) => expected == Ok::<Seq<char>, ForwardError>(target@),
        Err(error) => expected == Err::<Seq<char>, ForwardError>(error),
    }
}

/// `target` has the origin of the upstream and the path and the query of
/// the request, each unchanged.
pub open spec fn target_keeps(
    target: Seq<char>,
    upstream_origin: Seq<char>,
    path: Seq<char>,
    query: Option<Seq<char>>,
) -> bool {
    &&& origin_of(target) == upstream_origin
    &&& path_of(target) == path
    &&& query_of(target) == query
}

/// Accepts or refuses a target whose well-formedness has been decided
/// already.
pub fn check_target(target: String, well_formed: bool) -> (made: Result<String, ForwardError>)
    ensures
        target_outcome_is(made, checked_target(target@, well_formed)),
{
    if well_formed {
        Ok(target)
    } else {
        Err(ForwardError::MalformedTarget)
    }
}

/// The target of a request at the upstream.
///
/// The target is the upstream's origin followed by the request's path
/// and query, character for character, and it is refused if the whole is
/// not a well-formed URI. For a path and a query as a request brings
/// them, the target read as a URL has the upstream's scheme, host and
/// port, and the request's path and query.
pub fn rewrite_target(config: &ProxyConfig, path: &str, query: Option<&str>) -> (made: Result<
    String,
    ForwardError,
>)
    ensures
        target_outcome_is(
            made,
            checked_target(
                upstream_target(config@.upstream_origin, path@, text_of(query)),
                uri_is_well_formed(
                    upstream_target(config@.upstream_origin, path@, text_of(query)),
                ),
            ),
        ),
        made matches Ok(target) ==> (is_request_target(path@, text_of(query)) ==> target_keeps(
            target@,
            config@.upstream_origin,
            path@,
            text_of(query),
        )),
{
    let joined = join_path_and_query(path, query);
    let origin = config.upstream_origin();
    proof {
        if is_request_target(path@, text_of(query)) {
            lemma_target_keeps_origin_and_path(origin@, path@, text_of(query));
        }
    }
    let target = String::from_str(origin).concat(joined.as_str());
    let well_formed = parses_as_uri(target.as_str());
    check_target(target, well_formed)
}

/// The first half of handling a request, at the instant `now`.
///
/// The request counts as activity whatever becomes of it, so the clock is
/// touched first. Then the target at the upstream is worked out as
/// [`rewrite_target`] does.
pub fn begin_request(
    clock: &mut ActivityClock,
    now: u64,
    config: &ProxyConfig,
    path: &str,
    query: Option<&str>,
) -> (made: Result<String, ForwardError>)
    ensures
        final(clock)@ == now,
        elapsed_between(final(clock)@, now as nat) == 0,
        target_outcome_is(
            made,
            checked_target(
                upstream_target(config@.upstream_origin, path@, text_of(query)),
                uri_is_well_formed(
                    upstream_target(config@.upstream_origin, path@, text_of(query)),
                ),
            ),
        ),
        made matches Ok(target) ==> (is_request_target(path@, text_of(query)) ==> target_keeps(
            target@,
            config@.upstream_origin,
            path@,
            text_of(query),
        )),
{
    clock.touch(now);
    rewrite_target(config, path, query)
}

/// The status that reports `error` to the caller.
pub fn status_code(error: ForwardError) -> (status: u16)
    ensures
        status == status_of(error),
        400 <= status < 600,
{
    match error {
        ForwardError::MalformedTarget => STATUS_INTERNAL_SERVER_ERROR,
        ForwardError::UpstreamUnreachable => STATUS_BAD_GATEWAY,
        ForwardError::TimedOut => STATUS_REQUEST_TIMEOUT,
    }
}

/// The second half of handling a request: the reply to the caller.
///
/// A response of the upstream is handed back as the very value that was
/// handed in. A failure is answered with its status and never fails the
/// handler itself.
pub fn conclude<R>(outcome: Result<R, ForwardError>) -> (reply: Reply<R>)
    ensures
        reply == reply_to(outcome),
{
    match outcome {
        Ok(response) => Reply::Upstream(response),
        Err(error) => Reply::Status(status_code(error)),
    }
}

} // verus!
