use sekai::api::headers::{is_valid_header_text, ClientHeaders, HeaderData, HeaderPair};
use sekai::constants::header::name;
use sekai::error::ApiError;
use sekai::models::enums::Platform;

const SIGNATURE_COOKIE_VALUE: &str = "signature_cookie";

fn value_of<'a>(pairs: &'a [HeaderPair], header: &str) -> Option<&'a HeaderData> {
    pairs.iter().find(|p| p.name == header).map(|p| &p.value)
}

#[test]
fn test_issue_signature() {
    let mut headers = ClientHeaders::new("3.9", "393939", Platform::Android).unwrap();
    headers
        .after_signature(Some(SIGNATURE_COOKIE_VALUE.as_bytes().to_vec()))
        .unwrap();
    let pairs = headers.pairs();
    assert_eq!(
        value_of(&pairs, name::COOKIE).unwrap(),
        &HeaderData::Raw(SIGNATURE_COOKIE_VALUE.as_bytes().to_vec())
    );
}

#[test]
fn a_new_client_presents_its_app() {
    let headers = ClientHeaders::new("3.9", "393939", Platform::Ios).unwrap();
    assert_eq!(headers.version(), "3.9");
    let pairs = headers.pairs();
    let expected = vec![
        HeaderPair { name: "content-type", value: HeaderData::Text("application/octet-stream".into()) },
        HeaderPair { name: "accept", value: HeaderData::Text("application/octet-stream".into()) },
        HeaderPair { name: "x-app-version", value: HeaderData::Text("3.9".into()) },
        HeaderPair { name: "x-app-hash", value: HeaderData::Text("393939".into()) },
        HeaderPair { name: "x-platform", value: HeaderData::Text("ios".into()) },
    ];
    assert_eq!(pairs, expected);
}

#[test]
fn a_missing_cookie_is_refused_and_changes_nothing() {
    let mut headers = ClientHeaders::new("3.9", "393939", Platform::Android).unwrap();
    assert_eq!(
        headers.after_signature(None),
        Err(ApiError::InvalidRequest("set-cookie header not found".to_string()))
    );
    assert_eq!(headers.pairs().len(), 5);
    assert_eq!(value_of(&headers.pairs(), name::COOKIE), None);
}

#[test]
fn login_keeps_the_session_token() {
    let mut headers = ClientHeaders::new("3.9", "393939", Platform::Android).unwrap();
    headers.after_signature(Some(b"c=1".to_vec())).unwrap();
    headers.after_login("token-1").unwrap();
    headers.after_login("token-2").unwrap();
    let pairs = headers.pairs();
    assert_eq!(pairs.len(), 7);
    assert_eq!(pairs[5], HeaderPair { name: "cookie", value: HeaderData::Raw(b"c=1".to_vec()) });
    assert_eq!(
        pairs[6],
        HeaderPair { name: "x-session-token", value: HeaderData::Text("token-2".into()) }
    );
}

#[test]
fn a_token_with_a_line_break_is_refused() {
    let mut headers = ClientHeaders::new("3.9", "393939", Platform::Android).unwrap();
    assert_eq!(
        headers.after_login("bad\ntoken"),
        Err(ApiError::InvalidHeaderValue("failed to parse header value".to_string()))
    );
    assert_eq!(value_of(&headers.pairs(), name::SESSION_TOKEN), None);
}

#[test]
fn a_version_that_cannot_stand_in_a_header_is_refused() {
    assert!(ClientHeaders::new("3.9\r", "393939", Platform::Android).is_err());
    assert!(ClientHeaders::new("3.9", "39\u{7f}39", Platform::Android).is_err());
    assert!(ClientHeaders::new("3.9 é\t", "393939", Platform::Android).is_ok());
}

#[test]
fn header_text_follows_the_http_rule() {
    assert!(is_valid_header_text(""));
    assert!(is_valid_header_text("abc DEF\t~"));
    assert!(is_valid_header_text("日本"));
    assert!(!is_valid_header_text("a\u{0}"));
    assert!(!is_valid_header_text("\u{1f}"));
    assert!(!is_valid_header_text("\u{7f}"));
}
