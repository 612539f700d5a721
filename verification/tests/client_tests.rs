use opensource::client::all;
use opensource::client::all_url;
use opensource::client::get;
use opensource::client::get_url;
use opensource::client::tagged;
use opensource::client::tagged_url;
use opensource::client::ErrorCause;
use opensource::client::RawResponse;

fn ok(status: u16, body: &str) -> Result<RawResponse, String> {
    Ok(RawResponse { status, body: body.to_string() })
}

const BSD3_BODY: &str = r#"{"id":"BSD-3","identifiers":[],"keywords":["osi-approved"],"links":[],"name":"BSD 3-Clause \"New\" or \"Revised\" License","other_names":[],"text":[]}"#;

#[test]
fn get_known_license_returns_requested_id() {
    let l = get("MIT", ok(200, r#"{"id":"MIT","identifiers":[],"keywords":[],"links":[],"name":"MIT License","other_names":[],"text":[]}"#)).unwrap();
    assert_eq!(l.id, "MIT");
    assert_eq!(l.name, "MIT License");
}

#[test]
fn get_bsd3_mock_success() {
    let l = get("BSD-3", ok(200, BSD3_BODY)).unwrap();
    assert_eq!(l.id, "BSD-3");
    assert_eq!(l.name, "BSD 3-Clause \"New\" or \"Revised\" License");
    assert!(l.superseded_by.is_none());
    assert_eq!(l.keywords, vec!["osi-approved".to_string()]);
    assert!(l.identifiers.is_empty());
    assert!(l.links.is_empty());
    assert!(l.other_names.is_empty());
    assert!(l.text.is_empty());
}

#[test]
fn get_unknown_license_is_api_rejected() {
    let e = get("not-a-real-license", ok(404, r#"{"errors":[{"message":"not found"}]}"#))
        .unwrap_err();
    match e.cause() {
        ErrorCause::ApiRejected(ms) => assert_eq!(ms, &vec!["not found".to_string()]),
        other => panic!("expected ApiRejected, got {:?}", other),
    }
    let rendered = e.describe();
    assert!(rendered.contains("not found"));
    assert!(!rendered.is_empty());
}

#[test]
fn rejected_messages_are_joined() {
    let e = get("x", ok(500, r#"{"errors":[{"message":"first"},{"message":"second"}]}"#))
        .unwrap_err();
    assert_eq!(e.describe(), "first; second");
}

#[test]
fn nested_fields_decode() {
    let body = r#"{
        "id": "Apache-1.1",
        "identifiers": [{"identifier": "Apache-1.1", "scheme": "SPDX"}],
        "keywords": ["discouraged", "osi-approved"],
        "links": [{"note": "tarball", "url": "https://example.org/a"},
                  {"note": null, "url": "https://example.org/b"},
                  {"url": "https://example.org/c"}],
        "name": "Apache Software License 1.1",
        "other_names": [{"name": "Apache 1.1", "note": "short"}],
        "superseded_by": "Apache-2.0",
        "text": [{"media_type": "text/html", "title": "HTML", "url": "https://example.org/t"}]
    }"#;
    let l = get("Apache-1.1", ok(200, body)).unwrap();
    assert_eq!(l.identifiers.len(), 1);
    assert_eq!(l.identifiers[0].identifier, "Apache-1.1");
    assert_eq!(l.identifiers[0].scheme, "SPDX");
    assert_eq!(l.keywords, vec!["discouraged".to_string(), "osi-approved".to_string()]);
    assert_eq!(l.links.len(), 3);
    assert_eq!(l.links[0].note.as_deref(), Some("tarball"));
    assert_eq!(l.links[1].note, None);
    assert_eq!(l.links[2].note, None);
    assert_eq!(l.links[2].url, "https://example.org/c");
    assert_eq!(l.other_names[0].name, "Apache 1.1");
    assert_eq!(l.other_names[0].note.as_deref(), Some("short"));
    assert_eq!(l.superseded_by.as_deref(), Some("Apache-2.0"));
    assert_eq!(l.text[0].media_type, "text/html");
    assert_eq!(l.text[0].title, "HTML");
}

#[test]
fn superseded_by_presence_round_trips() {
    let without = get("BSD-3", ok(200, BSD3_BODY)).unwrap();
    assert!(without.superseded_by.is_none());
    let with = get("Apache-1.1", ok(200, r#"{"id":"Apache-1.1","identifiers":[],"keywords":[],"links":[],"name":"Apache 1.1","other_names":[],"superseded_by":"Apache-2.0","text":[]}"#)).unwrap();
    assert_eq!(with.superseded_by.as_deref(), Some("Apache-2.0"));
    let explicit_null = get("Apache-1.1", ok(200, r#"{"id":"Apache-1.1","identifiers":[],"keywords":[],"links":[],"name":"Apache 1.1","other_names":[],"superseded_by":null,"text":[]}"#)).unwrap();
    assert!(explicit_null.superseded_by.is_none());
}

#[test]
fn unknown_fields_are_ignored() {
    let body = r#"{"id":"Zlib","identifiers":[],"keywords":[],"links":[],"name":"zlib License","other_names":[],"text":[],"popularity":3,"seen":true,"extra":{"a":[1,2]}}"#;
    let l = get("Zlib", ok(200, body)).unwrap();
    assert_eq!(l.id, "Zlib");
}

#[test]
fn transport_failure_on_get() {
    let e = get("MIT", Err("connection refused".to_string())).unwrap_err();
    match e.cause() {
        ErrorCause::TransportFailed(m) => assert_eq!(m, "connection refused"),
        other => panic!("expected TransportFailed, got {:?}", other),
    }
    assert_eq!(e.describe(), "connection refused");
}

#[test]
fn transport_failure_on_all() {
    let e = all(Err("connection refused".to_string())).unwrap_err();
    assert!(matches!(e.cause(), ErrorCause::TransportFailed(_)));
}

#[test]
fn transport_failure_on_tagged() {
    let e = tagged("copyleft", Err("connection refused".to_string())).unwrap_err();
    assert!(matches!(e.cause(), ErrorCause::TransportFailed(_)));
}

#[test]
fn malformed_body_is_decode_failed() {
    let e = get("MIT", ok(200, "this is not json")).unwrap_err();
    assert!(matches!(e.cause(), ErrorCause::DecodeFailed(_)));
    assert!(!e.describe().is_empty());
}

#[test]
fn wrong_shape_is_decode_failed() {
    // valid JSON, but not a license record
    let e = get("MIT", ok(200, r#"["MIT"]"#)).unwrap_err();
    assert!(matches!(e.cause(), ErrorCause::DecodeFailed(_)));
    // a record missing the required "name" field
    let e = get("MIT", ok(200, r#"{"id":"MIT","identifiers":[],"keywords":[],"links":[],"other_names":[],"text":[]}"#)).unwrap_err();
    assert!(matches!(e.cause(), ErrorCause::DecodeFailed(_)));
}

#[test]
fn rejection_with_unreadable_body_is_decode_failed() {
    let e = get("MIT", ok(503, "<html>bad gateway</html>")).unwrap_err();
    assert!(matches!(e.cause(), ErrorCause::DecodeFailed(_)));
    // valid JSON that is not the error shape
    let e = get("MIT", ok(503, r#"{"oops": 1}"#)).unwrap_err();
    assert!(matches!(e.cause(), ErrorCause::DecodeFailed(_)));
}

#[test]
fn all_returns_every_record() {
    let body = r#"[
        {"id":"MIT","identifiers":[],"keywords":[],"links":[],"name":"MIT License","other_names":[],"text":[]},
        {"id":"Zlib","identifiers":[],"keywords":[],"links":[],"name":"zlib License","other_names":[],"text":[]}
    ]"#;
    let ls = all(ok(200, body)).unwrap();
    assert_eq!(ls.len(), 2);
    assert_eq!(ls[0].id, "MIT");
    assert_eq!(ls[1].id, "Zlib");
}

#[test]
fn all_fails_when_one_record_is_malformed() {
    let body = r#"[
        {"id":"MIT","identifiers":[],"keywords":[],"links":[],"name":"MIT License","other_names":[],"text":[]},
        {"id":"broken"}
    ]"#;
    let e = all(ok(200, body)).unwrap_err();
    assert!(matches!(e.cause(), ErrorCause::DecodeFailed(_)));
}

#[test]
fn tagged_returns_matching_records() {
    let body = r#"[
        {"id":"GPL-3.0","identifiers":[],"keywords":["copyleft"],"links":[],"name":"GNU GPL 3.0","other_names":[],"text":[]}
    ]"#;
    let ls = tagged("copyleft", ok(200, body)).unwrap();
    assert_eq!(ls.len(), 1);
    assert!(ls[0].keywords.contains(&"copyleft".to_string()));
}

#[test]
fn tagged_with_no_match_is_empty_not_error() {
    let ls = tagged("no-such-keyword", ok(200, "[]")).unwrap();
    assert!(ls.is_empty());
}

#[test]
fn request_urls_resolve_against_base() {
    assert_eq!(get_url("BSD-3").unwrap(), "https://api.opensource.org/license/BSD-3");
    assert_eq!(all_url().unwrap(), "https://api.opensource.org/licenses/");
    assert_eq!(tagged_url("copyleft").unwrap(), "https://api.opensource.org/licenses/copyleft");
}

#[test]
fn all_with_empty_list_is_empty_not_error() {
    let ls = all(ok(200, "[]")).unwrap();
    assert!(ls.is_empty());
}

#[test]
fn wrong_element_type_is_decode_failed() {
    // a keyword that is a number, not a string
    let body = r#"{"id":"MIT","identifiers":[],"keywords":[1],"links":[],"name":"MIT License","other_names":[],"text":[]}"#;
    let e = get("MIT", ok(200, body)).unwrap_err();
    assert!(matches!(e.cause(), ErrorCause::DecodeFailed(_)));
}
