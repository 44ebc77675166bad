use dnsoverhttps::codec::{decode_response, encode_query, is_valid_dns_name, Query};
use dnsoverhttps::record::{AnswerRecord, RecordType};
use dnsoverhttps::Error;

const HEADER: [u8; 12] = [0, 0, 1, 0, 0, 1, 0, 0, 0, 0, 0, 0];

#[test]
fn query_asks_for_recursion() {
    let query = Query::new("example.com", RecordType::AAAA);
    assert_eq!(query.name(), "example.com");
    assert_eq!(query.record_type(), RecordType::AAAA);
    assert!(query.recursion_desired());
    // The flag is the lowest bit of the third byte of the message.
    let bytes = encode_query(&query).unwrap();
    assert_eq!(bytes[2] & 0x01, 0x01);
}

#[test]
fn encodes_one_question() {
    let bytes = encode_query(&Query::new("example.com", RecordType::A)).unwrap();
    let mut expected = HEADER.to_vec();
    expected.extend_from_slice(b"\x07example\x03com\x00");
    expected.extend_from_slice(&[0, 1, 0, 1]);
    assert_eq!(bytes, expected);

    let bytes = encode_query(&Query::new("example.com", RecordType::AAAA)).unwrap();
    let mut expected = HEADER.to_vec();
    expected.extend_from_slice(b"\x07example\x03com\x00");
    expected.extend_from_slice(&[0, 28, 0, 1]);
    assert_eq!(bytes, expected);
}

#[test]
fn encoding_is_the_same_every_time() {
    let query = Query::new("www.example.org.", RecordType::AAAA);
    assert_eq!(encode_query(&query).unwrap(), encode_query(&query).unwrap());
}

#[test]
fn rejects_what_is_no_dns_name() {
    let too_long_label = format!("{}.example.com", "a".repeat(64));
    for name in ["exa mple.com", "example\tcom", too_long_label.as_str(), "a\\09b.example"] {
        assert_eq!(
            encode_query(&Query::new(name, RecordType::A)),
            Err(Error::Encode),
            "{:?}",
            name
        );
    }
}

fn response(answers: &[&[u8]]) -> Vec<u8> {
    let mut bytes = vec![0, 0, 0x81, 0x80, 0, 1, 0, answers.len() as u8, 0, 0, 0, 0];
    bytes.extend_from_slice(b"\x07example\x03com\x00\x00\x01\x00\x01");
    for answer in answers {
        bytes.extend_from_slice(answer);
    }
    bytes
}

const CNAME: &[u8] = b"\xc0\x0c\x00\x05\x00\x01\x00\x00\x01\x00\x00\x06\x03www\xc0\x0c";
const A_ONE: &[u8] = b"\xc0\x0c\x00\x01\x00\x01\x00\x00\x01\x00\x00\x04\x5d\xb8\xd8\x22";
const A_TWO: &[u8] = b"\xc0\x0c\x00\x01\x00\x01\x00\x00\x01\x00\x00\x04\x0a\x00\x00\x01";
const AAAA_ONE: &[u8] =
    b"\xc0\x0c\x00\x1c\x00\x01\x00\x00\x01\x00\x00\x10\x26\x06\x28\x00\x02\x20\x00\x01\x02\x48\x18\x93\x25\xc8\x19\x46";
const TXT: &[u8] = b"\xc0\x0c\x00\x10\x00\x01\x00\x00\x01\x00\x00\x04\x03abc";

#[test]
fn decodes_the_answers_in_their_order() {
    let answers = decode_response(&response(&[CNAME, A_ONE, AAAA_ONE, TXT, A_TWO])).unwrap();
    assert_eq!(
        answers,
        vec![
            AnswerRecord::Other,
            AnswerRecord::A([93, 184, 216, 34]),
            AnswerRecord::AAAA([
                0x26, 0x06, 0x28, 0x00, 0x02, 0x20, 0x00, 0x01, 0x02, 0x48, 0x18, 0x93, 0x25, 0xc8,
                0x19, 0x46
            ]),
            AnswerRecord::Other,
            AnswerRecord::A([10, 0, 0, 1]),
        ]
    );
}

#[test]
fn decodes_a_response_without_answers() {
    assert_eq!(decode_response(&response(&[])), Ok(vec![]));
}

#[test]
fn keeps_equal_answers() {
    let answers = decode_response(&response(&[A_ONE, A_ONE])).unwrap();
    assert_eq!(answers, vec![AnswerRecord::A([93, 184, 216, 34]); 2]);
}

#[test]
fn rejects_truncated_and_malformed_messages() {
    assert_eq!(decode_response(&[]), Err(Error::Decode));
    assert_eq!(decode_response(&[0, 0, 0x81]), Err(Error::Decode));
    let whole = response(&[A_ONE]);
    assert_eq!(decode_response(&whole[..whole.len() - 1]), Err(Error::Decode));
    assert_eq!(decode_response(&whole[..20]), Err(Error::Decode));
    assert_eq!(decode_response(b"<html>502 Bad Gateway</html>"), Err(Error::Decode));
}

#[test]
fn decodes_what_it_encoded() {
    // A query is a message without answers.
    let bytes = encode_query(&Query::new("example.com", RecordType::A)).unwrap();
    assert_eq!(decode_response(&bytes), Ok(vec![]));
}

#[test]
fn the_codec_judges_what_a_dns_name_is() {
    for name in ["example.com", "example.com.", "_sip._tcp.example.com", "a-.example", "1.1.1.1"] {
        assert!(is_valid_dns_name(name), "{:?}", name);
        assert!(encode_query(&Query::new(name, RecordType::A)).is_ok());
        assert!(encode_query(&Query::new(name, RecordType::AAAA)).is_ok());
    }
    let long_label = format!("{}.example.com", "a".repeat(64));
    for name in ["exa mple.com", "a..b", "-a.example", "a\nb", long_label.as_str()] {
        assert!(!is_valid_dns_name(name), "{:?}", name);
        assert_eq!(encode_query(&Query::new(name, RecordType::A)), Err(Error::Encode));
        assert_eq!(encode_query(&Query::new(name, RecordType::AAAA)), Err(Error::Encode));
    }
}

#[test]
fn a_trailing_dot_does_not_change_the_query() {
    let relative = encode_query(&Query::new("dns.google.com", RecordType::A)).unwrap();
    let absolute = encode_query(&Query::new("dns.google.com.", RecordType::A)).unwrap();
    assert_eq!(relative, absolute);
}
