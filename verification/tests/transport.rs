use base64::engine::general_purpose::URL_SAFE_NO_PAD;
use base64::Engine;
use dnsoverhttps::codec::{encode_query, Query};
use dnsoverhttps::endpoint::Endpoint;
use dnsoverhttps::error::TransportError;
use dnsoverhttps::record::RecordType;
use dnsoverhttps::transport::{build_request, into_message, Method, TransportMode};
use dnsoverhttps::{Error, HttpRequest, Reply};
use std::str::FromStr;

fn endpoint(url: &str) -> Endpoint {
    Endpoint::parse(url, None).unwrap()
}

#[test]
fn binary_mode_posts_the_query() {
    let request =
        build_request(TransportMode::BinaryPost, &endpoint("https://1.1.1.1/dns-query"), vec![1, 2, 3]);
    assert_eq!(
        request,
        HttpRequest {
            method: Method::Post,
            url: "https://1.1.1.1/dns-query".to_string(),
            host: None,
            content_type: Some("application/dns-udpwireformat".to_string()),
            body: vec![1, 2, 3],
        }
    );
}

#[test]
fn base64_mode_gets_with_the_query_as_parameter() {
    let request =
        build_request(TransportMode::Base64Get, &endpoint("https://1.1.1.1/dns-query"), vec![0xfb, 0xff]);
    assert_eq!(
        request,
        HttpRequest {
            method: Method::Get,
            url: "https://1.1.1.1/dns-query?ct=&body=-_8".to_string(),
            host: None,
            content_type: None,
            body: vec![],
        }
    );
}

#[test]
fn base64_mode_with_an_empty_query() {
    let request = build_request(TransportMode::Base64Get, &endpoint("http://localhost/"), vec![]);
    assert_eq!(request.url, "http://localhost/?ct=&body=");
}

#[test]
fn either_mode_presents_the_override_host() {
    let endpoint =
        Endpoint::parse("https://172.217.21.110/experimental", Some("dns.google.com".to_string()))
            .unwrap();
    for mode in [TransportMode::BinaryPost, TransportMode::Base64Get] {
        let request = build_request(mode, &endpoint, vec![7]);
        assert_eq!(request.host.as_deref(), Some("dns.google.com"));
    }
}

/// The DNS message that a server takes out of a request.
fn payload(request: &HttpRequest) -> Vec<u8> {
    match request.method {
        Method::Post => request.body.clone(),
        Method::Get => {
            let (_, value) = request.url.rsplit_once("body=").unwrap();
            URL_SAFE_NO_PAD.decode(value).unwrap()
        }
    }
}

#[test]
fn both_modes_carry_the_same_query() {
    for name in ["example.com", "fnordig.de", "a.very.long.name.with.many.labels.example.org."] {
        for record_type in [RecordType::A, RecordType::AAAA] {
            let query = encode_query(&Query::new(name, record_type)).unwrap();
            let post =
                build_request(TransportMode::BinaryPost, &endpoint("https://dns.example/q"), query.clone());
            let get =
                build_request(TransportMode::Base64Get, &endpoint("https://dns.example/q"), query.clone());
            assert_eq!(payload(&post), query);
            assert_eq!(payload(&get), query);
        }
    }
}

#[test]
fn both_modes_carry_the_question_that_was_asked() {
    for mode in [TransportMode::BinaryPost, TransportMode::Base64Get] {
        let query = encode_query(&Query::new("www.example.com", RecordType::AAAA)).unwrap();
        let request = build_request(mode, &endpoint("https://dns.example/q"), query);
        let echoed = trust_dns::op::Message::from_vec(&payload(&request)).unwrap();
        assert!(echoed.recursion_desired());
        assert_eq!(echoed.queries().len(), 1);
        let question = &echoed.queries()[0];
        assert_eq!(question.name(), &trust_dns::rr::Name::from_str("www.example.com").unwrap());
        assert_eq!(question.query_type(), trust_dns::rr::RecordType::AAAA);
        assert_eq!(question.query_class(), trust_dns::rr::DNSClass::IN);
        assert!(echoed.answers().is_empty());
    }
}

#[test]
fn a_success_delivers_the_body() {
    for status in [200, 204, 299] {
        let reply = Reply::Response { status, body: vec![9, 8, 7] };
        assert_eq!(into_message(reply), Ok(vec![9, 8, 7]));
    }
}

#[test]
fn any_other_status_is_a_transport_error() {
    for status in [0, 100, 199, 300, 301, 404, 500, 502, 65535] {
        let reply = Reply::Response { status, body: vec![9, 8, 7] };
        assert_eq!(
            into_message(reply),
            Err(Error::Transport(TransportError::Status(status)))
        );
    }
}

#[test]
fn a_failed_exchange_is_a_transport_error() {
    for failure in [
        TransportError::Connect,
        TransportError::Timeout,
        TransportError::Other,
        TransportError::Status(503),
    ] {
        assert_eq!(into_message(Reply::Failed(failure)), Err(Error::Transport(failure)));
    }
}
