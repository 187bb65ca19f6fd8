//! The response that a status becomes.

use tonic::metadata::MetadataMap;
use tonic_async_interceptor::{with_default_body, HttpResponse, Status, MAX_METADATA_NAMES};

fn status(code: i32, message: &str) -> Status {
    Status {
        code,
        message: message.to_owned(),
        details: Vec::new(),
        metadata: MetadataMap::new(),
    }
}

#[test]
fn status_without_message_or_details() {
    let response: HttpResponse<String> = status(16, "").into_http();
    assert_eq!(response.status, 200);
    assert_eq!(response.version, http::Version::HTTP_11);
    assert!(response.extensions.is_empty());
    assert_eq!(response.body, "");
    assert_eq!(response.headers.len(), 2);
    assert_eq!(response.headers["content-type"], "application/grpc");
    assert_eq!(response.headers["grpc-status"], "16");
}

#[test]
fn every_code_is_written_in_decimal() {
    for code in 0..=16 {
        let response: HttpResponse<()> = status(code, "").into_http();
        assert_eq!(response.headers["grpc-status"], format!("{code}"));
    }
}

#[test]
fn number_that_is_no_code_stands_for_unknown() {
    for code in [-1, 17, i32::MIN, i32::MAX] {
        let response: HttpResponse<()> = status(code, "").into_http();
        assert_eq!(response.headers["grpc-status"], "2");
    }
}

#[test]
fn message_is_percent_encoded() {
    let response: HttpResponse<()> = status(7, "Blocked by {me}\u{e9}").into_http();
    assert_eq!(response.headers["grpc-message"], "Blocked%20by%20%7Bme%7D%C3%A9");
    assert_eq!(response.headers.len(), 3);
}

#[test]
fn message_is_escaped_where_it_has_to_be() {
    // Every byte of ASCII, of which the control characters and nine others are escaped.
    let message: String = (0u8..128).map(|byte| byte as char).collect();
    let mut expected = String::new();
    for byte in 0u8..128 {
        if byte < 32 || byte == 127 || b" \"#<>?`{}".contains(&byte) {
            expected.push_str(&format!("%{byte:02X}"));
        } else {
            expected.push(byte as char);
        }
    }
    let response: HttpResponse<()> = status(7, &message).into_http();
    assert_eq!(response.headers["grpc-message"], expected);

    // Two, three and four bytes of UTF-8.
    let response: HttpResponse<()> = status(7, "\u{df}\u{20ac}\u{1f600}").into_http();
    assert_eq!(response.headers["grpc-message"], "%C3%9F%E2%82%AC%F0%9F%98%80");
}

#[test]
fn details_of_every_length_are_filled_up() {
    let cases: [(&[u8], &str); 4] = [
        (&[255], "/w"),
        (&[255, 239], "/+8"),
        (&[0, 16, 131], "ABCD"),
        (&[105, 183, 29, 121, 248, 33], "abcdefgh"),
    ];
    for (details, expected) in cases {
        let mut refusal = status(3, "");
        refusal.details = details.to_vec();
        let response: HttpResponse<()> = refusal.into_http();
        assert_eq!(response.headers["grpc-status-details-bin"], expected);
    }
}

#[test]
fn metadata_named_like_the_details_is_kept_without_details() {
    let mut refusal = status(5, "");
    refusal.metadata.insert_bin(
        "grpc-status-details-bin",
        tonic::metadata::MetadataValue::from_bytes(&[0]),
    );
    let response: HttpResponse<()> = refusal.into_http();
    assert_eq!(response.headers["grpc-status-details-bin"], "AA");
    assert_eq!(response.headers.len(), 3);
}

#[test]
fn refusals_have_one_version_and_no_extensions() {
    let one: HttpResponse<()> = status(1, "one").into_http();
    let two: HttpResponse<()> = status(2, "").into_http();
    assert_eq!(one.version, two.version);
    assert_eq!(one.version, http::Version::default());
    assert!(one.extensions.is_empty() && two.extensions.is_empty());
}

#[test]
fn details_are_base64_encoded() {
    let mut refusal = status(3, "");
    refusal.details = vec![1, 2, 3, 255];
    let response: HttpResponse<()> = refusal.into_http();
    assert_eq!(response.headers["grpc-status-details-bin"], "AQID/w");
    assert_eq!(response.headers.len(), 3);
}

#[test]
fn metadata_is_added_but_for_reserved_names() {
    let mut refusal = status(5, "gone");
    for (name, value) in [
        ("te", "a"),
        ("user-agent", "b"),
        ("content-type", "c"),
        ("grpc-message", "d"),
        ("grpc-message-type", "e"),
        ("grpc-status", "f"),
        ("x-own", "g"),
    ] {
        refusal.metadata.insert(name, value.parse().unwrap());
    }
    refusal.metadata.append("x-own", "h".parse().unwrap());
    let response: HttpResponse<()> = refusal.into_http();
    assert!(response.headers.get("te").is_none());
    assert!(response.headers.get("user-agent").is_none());
    assert!(response.headers.get("grpc-message-type").is_none());
    assert_eq!(response.headers["content-type"], "application/grpc");
    assert_eq!(response.headers["grpc-message"], "gone");
    assert_eq!(response.headers["grpc-status"], "5");
    let own: Vec<&http::HeaderValue> = response.headers.get_all("x-own").iter().collect();
    assert_eq!(own, vec!["g", "h"]);
    assert_eq!(response.headers.len(), 5);
}

#[test]
fn details_replace_metadata_of_the_same_name() {
    let mut refusal = status(5, "");
    refusal.metadata.insert_bin(
        "grpc-status-details-bin",
        tonic::metadata::MetadataValue::from_bytes(b"other"),
    );
    refusal.details = vec![0];
    let response: HttpResponse<()> = refusal.into_http();
    assert_eq!(response.headers["grpc-status-details-bin"], "AA");
    assert_eq!(response.headers.len(), 3);
}

#[test]
fn metadata_with_the_most_names_can_be_answered_with() {
    let mut refusal = status(8, "many");
    refusal.details = vec![9];
    for n in 0..MAX_METADATA_NAMES {
        let name: tonic::metadata::AsciiMetadataKey = format!("x-{n}").parse().unwrap();
        refusal.metadata.append(name.clone(), "1".parse().unwrap());
        refusal.metadata.append(name, "2".parse().unwrap());
    }
    assert!(refusal.answerable());
    refusal.metadata.insert("x-more", "3".parse().unwrap());
    assert!(!refusal.answerable());
    refusal.metadata.remove("x-more");
    assert!(refusal.answerable());
    let response: HttpResponse<()> = refusal.into_http();
    assert_eq!(response.headers.keys_len(), MAX_METADATA_NAMES + 4);
    assert_eq!(response.headers.len(), 2 * MAX_METADATA_NAMES + 4);
}

#[test]
fn default_body_takes_the_place_of_none() {
    let head: HttpResponse<()> = status(1, "x").into_http();
    let response: HttpResponse<Vec<u8>> = with_default_body(head);
    assert_eq!(response.status, 200);
    assert_eq!(response.headers["grpc-status"], "1");
    assert!(response.body.is_empty());
}
