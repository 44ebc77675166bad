use dnsoverhttps::endpoint::Endpoint;
use dnsoverhttps::error::ConfigError;
use dnsoverhttps::transport::TransportMode;
use dnsoverhttps::{Client, Error};

fn config_error(result: Result<Client, Error>) -> ConfigError {
    match result {
        Err(Error::Config(error)) => error,
        Err(other) => panic!("expected a configuration error, got {:?}", other),
        Ok(_) => panic!("expected a configuration error, got a client"),
    }
}

#[test]
fn from_url_keeps_the_endpoint() {
    let client = Client::from_url("https://1.1.1.1/dns-query").unwrap();
    assert_eq!(client.endpoint().url(), "https://1.1.1.1/dns-query");
    assert_eq!(client.endpoint().host(), None);
    assert!(client.verifies_hostname());
    assert_eq!(client.mode(), TransportMode::BinaryPost);
}

#[test]
fn from_url_normalises_the_url() {
    let client = Client::from_url("HTTPS://DNS.Example.COM").unwrap();
    assert_eq!(client.endpoint().url(), "https://dns.example.com/");
    let client = Client::from_url("  http://example.com:80/a/../b ").unwrap();
    assert_eq!(client.endpoint().url(), "http://example.com/b");
}

#[test]
fn from_url_rejects_what_is_no_absolute_url() {
    for text in ["", "not a url", "/dns-query", "dns.example.com/dns-query", "https://", "https://exa mple.com/", "https://example.com:99999/"] {
        assert_eq!(config_error(Client::from_url(text)), ConfigError::InvalidUrl, "{:?}", text);
    }
}

#[test]
fn from_url_rejects_other_schemes() {
    for text in ["ftp://example.com/dns-query", "mailto:dns@example.com", "httpx://example.com/", "file:///etc/hosts"] {
        assert_eq!(
            config_error(Client::from_url(text)),
            ConfigError::UnsupportedScheme,
            "{:?}",
            text
        );
    }
}

#[test]
fn from_url_accepts_http_and_https() {
    assert!(Client::from_url("http://127.0.0.1:8053/dns-query").is_ok());
    assert!(Client::from_url("https://[2606:4700:4700::1111]/dns-query").is_ok());
}

#[test]
fn from_url_with_hostname_keeps_the_host() {
    let client = Client::from_url_with_hostname(
        "https://172.217.21.110/experimental",
        "dns.google.com".to_string(),
    )
    .unwrap();
    assert_eq!(client.endpoint().url(), "https://172.217.21.110/experimental");
    assert_eq!(client.endpoint().host(), Some("dns.google.com"));
    assert!(!client.verifies_hostname());
    assert_eq!(client.mode(), TransportMode::BinaryPost);
}

#[test]
fn from_url_with_hostname_takes_every_dns_name() {
    let label = "a".repeat(63);
    for host in [
        "dns.google.com",
        "dns.google.com.",
        "_dns.example.com",
        "_443._tcp.dns.example.com",
        "dns-.example.com",
        "ex--ample.com",
        "DNS.Google.COM",
        "localhost",
        "1.1.1.1",
        "xn--bcher-kva.example",
        label.as_str(),
    ] {
        let client = Client::from_url_with_hostname(
            "https://172.217.21.110/experimental",
            host.to_string(),
        )
        .expect(host);
        assert_eq!(client.endpoint().host(), Some(host));
        assert!(!client.verifies_hostname());
    }
}

#[test]
fn from_url_with_hostname_takes_what_a_resolution_takes() {
    // The override host is judged as the names that are resolved.
    for host in ["dns.google.com.", "_dns.example.com", "dns google", "a..b", "-a.b"] {
        let resolves = !matches!(
            Client::default().resolve_host(host),
            dnsoverhttps::Step::Done(Err(Error::Encode))
        );
        let constructs =
            Client::from_url_with_hostname("https://9.9.9.9/dns-query", host.to_string()).is_ok();
        assert_eq!(resolves, constructs, "{:?}", host);
    }
}

#[test]
fn from_url_with_hostname_rejects_a_malformed_host() {
    let long_label = format!("{}.example.com", "a".repeat(64));
    for host in [
        "dns.google.com\r\nX-Injected: 1",
        "dns google",
        "dns\tgoogle",
        "-dns.google.com",
        "dns..google.com",
        long_label.as_str(),
    ] {
        assert_eq!(
            config_error(Client::from_url_with_hostname(
                "https://172.217.21.110/experimental",
                host.to_string()
            )),
            ConfigError::InvalidHeaderValue,
            "{:?}",
            host
        );
    }
}

#[test]
fn from_url_with_hostname_looks_at_the_url_first() {
    assert_eq!(
        config_error(Client::from_url_with_hostname("no url", "-".to_string())),
        ConfigError::InvalidUrl
    );
    assert_eq!(
        config_error(Client::from_url_with_hostname("ftp://example.com/", "-".to_string())),
        ConfigError::UnsupportedScheme
    );
}

#[test]
fn default_client_is_the_client_for_the_well_known_url() {
    let default = Client::default();
    let named = Client::from_url("https://1.1.1.1/dns-query").unwrap();
    assert_eq!(default.endpoint().url(), named.endpoint().url());
    assert_eq!(default.endpoint().host(), named.endpoint().host());
    assert_eq!(default.mode(), named.mode());
    assert!(default.verifies_hostname());
}

#[test]
fn with_mode_changes_the_mode_only() {
    let client = Client::from_url_with_hostname("https://9.9.9.9/dns-query", "dns.quad9.net".to_string())
        .unwrap()
        .with_mode(TransportMode::Base64Get);
    assert_eq!(client.mode(), TransportMode::Base64Get);
    assert_eq!(client.endpoint().url(), "https://9.9.9.9/dns-query");
    assert_eq!(client.endpoint().host(), Some("dns.quad9.net"));
}

#[test]
fn clone_keeps_everything() {
    let client = Client::from_url_with_hostname("https://9.9.9.9/dns-query", "dns.quad9.net".to_string())
        .unwrap()
        .with_mode(TransportMode::Base64Get);
    let copy = client.clone();
    assert_eq!(copy.mode(), client.mode());
    assert_eq!(copy.endpoint().url(), client.endpoint().url());
    assert_eq!(copy.endpoint().host(), client.endpoint().host());
}

#[test]
fn endpoint_new_takes_a_normalised_url_as_it_is() {
    let endpoint = Endpoint::new("https://example.com/dns-query".to_string(), None).unwrap();
    assert_eq!(endpoint.url(), "https://example.com/dns-query");
    assert!(matches!(
        Endpoint::new("gopher://example.com/".to_string(), None),
        Err(Error::Config(ConfigError::UnsupportedScheme))
    ));
    assert!(matches!(
        Endpoint::new("https://example.com/".to_string(), Some("a b".to_string())),
        Err(Error::Config(ConfigError::InvalidHeaderValue))
    ));
    assert!(matches!(
        Endpoint::new("example.com".to_string(), Some("a b".to_string())),
        Err(Error::Config(ConfigError::UnsupportedScheme))
    ));
    let endpoint =
        Endpoint::new("https://example.com/".to_string(), Some("a_b.example.".to_string()))
            .unwrap();
    assert_eq!(endpoint.host(), Some("a_b.example."));
}

#[test]
fn endpoint_parse_is_what_the_constructors_use() {
    let endpoint = Endpoint::parse("https://EXAMPLE.com", Some("dns.example.com".to_string())).unwrap();
    assert_eq!(endpoint.url(), "https://example.com/");
    assert_eq!(endpoint.host(), Some("dns.example.com"));
    assert!(matches!(Endpoint::parse("::", None), Err(Error::Config(ConfigError::InvalidUrl))));
}
