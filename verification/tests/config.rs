use idle_proxy::config::{
    ConfigError, ProxyConfig, DEFAULT_IDLE_TIMEOUT_MS, DEFAULT_PORT, DEFAULT_REQUEST_TIMEOUT_MS,
    DEFAULT_UPSTREAM, TICK_INTERVAL_MS,
};

#[test]
fn defaults_have_their_documented_values() {
    assert_eq!(DEFAULT_UPSTREAM, "http://127.0.0.1:3000");
    assert_eq!(DEFAULT_PORT, 8080);
    assert_eq!(DEFAULT_IDLE_TIMEOUT_MS, 900_000);
    assert_eq!(DEFAULT_REQUEST_TIMEOUT_MS, 10_000);
    assert_eq!(TICK_INTERVAL_MS, 1_000);
}

#[test]
fn default_upstream_makes_a_configuration() {
    let config = ProxyConfig::new(
        DEFAULT_UPSTREAM,
        DEFAULT_PORT,
        DEFAULT_IDLE_TIMEOUT_MS,
        DEFAULT_REQUEST_TIMEOUT_MS,
    )
    .unwrap();
    assert_eq!(config.upstream_origin(), "http://127.0.0.1:3000");
    assert_eq!(config.port(), 8080);
    assert_eq!(config.idle_timeout(), 900_000);
    assert_eq!(config.request_timeout(), 10_000);
}

#[test]
fn configuration_keeps_what_it_was_given() {
    let config = ProxyConfig::new("https://example.org:8443", 1, 2, 3).unwrap();
    assert_eq!(config.upstream_origin(), "https://example.org:8443");
    assert_eq!(config.port(), 1);
    assert_eq!(config.idle_timeout(), 2);
    assert_eq!(config.request_timeout(), 3);
}

#[test]
fn configuration_keeps_only_the_origin_of_the_upstream() {
    let config = ProxyConfig::new("http://127.0.0.1:9000/api/v1?debug=1#top", 8080, 1, 1).unwrap();
    assert_eq!(config.upstream_origin(), "http://127.0.0.1:9000");
    let config = ProxyConfig::new("http://127.0.0.1:9000/", 8080, 1, 1).unwrap();
    assert_eq!(config.upstream_origin(), "http://127.0.0.1:9000");
}

#[test]
fn upstream_without_scheme_is_a_configuration_error() {
    assert_eq!(ProxyConfig::new("127.0.0.1:9000", 8080, 2_000, 5_000), Err(ConfigError::InvalidUpstream));
    assert_eq!(ProxyConfig::new("//127.0.0.1:9000", 8080, 2_000, 5_000), Err(ConfigError::InvalidUpstream));
    assert_eq!(ProxyConfig::new("http", 8080, 2_000, 5_000), Err(ConfigError::InvalidUpstream));
    assert_eq!(ProxyConfig::new("", 8080, 2_000, 5_000), Err(ConfigError::InvalidUpstream));
}

#[test]
fn valid_url_without_host_is_a_configuration_error() {
    assert_eq!(
        ProxyConfig::new("mailto:someone@example.org", 8080, 2_000, 5_000),
        Err(ConfigError::UpstreamWithoutOrigin)
    );
    assert_eq!(
        ProxyConfig::new("localhost:9000", 8080, 2_000, 5_000),
        Err(ConfigError::UpstreamWithoutOrigin)
    );
}

#[test]
fn validation_decides_before_the_origin_is_looked_for() {
    assert_eq!(
        ProxyConfig::from_validation("http://127.0.0.1:9000", false, 8080, 1, 1),
        Err(ConfigError::InvalidUpstream)
    );
    assert_eq!(
        ProxyConfig::from_validation("no origin here", false, 8080, 1, 1),
        Err(ConfigError::InvalidUpstream)
    );
    assert_eq!(
        ProxyConfig::from_validation("no origin here", true, 8080, 1, 1),
        Err(ConfigError::UpstreamWithoutOrigin)
    );
    let config = ProxyConfig::from_validation("http://h:1/x", true, 80, 4, 5).unwrap();
    assert_eq!(config.upstream_origin(), "http://h:1");
    assert_eq!(config.port(), 80);
    assert_eq!(config.idle_timeout(), 4);
    assert_eq!(config.request_timeout(), 5);
}

#[test]
fn validator_is_asked_about_the_text_it_is_given() {
    assert!(ProxyConfig::new("http://localhost:80", 1, 1, 1).is_ok());
    assert!(ProxyConfig::new("ftp://localhost:80", 1, 1, 1).is_ok());
    assert_eq!(ProxyConfig::new("http://exa mple.org", 1, 1, 1), Err(ConfigError::InvalidUpstream));
}
