//! The envelope-parsing stage, driven end to end through the real JSON
//! parser: an `error` member of object shape rejects the envelope with the
//! object's rendered text, every other shape of `error` passes.

use deezer::blocking::parse_response_to_value;
use deezer::DeezerError;

#[test]
fn error_object_rejects_with_rendered_text() {
    let body = r#"{"error":{"code":4,"message":"Quota limit exceeded"},"data":[]}"#;
    match parse_response_to_value(body) {
        Err(DeezerError::ApiError(m)) => {
            assert_eq!(m, r#"{"code":4,"message":"Quota limit exceeded"}"#);
        }
        other => panic!("expected a remote-reported failure, got {:?}", other),
    }
}

#[test]
fn error_rendering_matches_the_parser_convention() {
    // strings with escapes and a fractional number, rendered back out
    let body = "{\"error\":{\"m\":\"a\\\"b\\\\c\\nd\",\"n\":4.5,\"z\":[1,null,true]}}";
    let expected = {
        let v: serde_json::Value = serde_json::from_str(body).unwrap();
        v.get("error").unwrap().to_string()
    };
    match parse_response_to_value(body) {
        Err(DeezerError::ApiError(m)) => assert_eq!(m, expected),
        other => panic!("expected a remote-reported failure, got {:?}", other),
    }
}

#[test]
fn error_absent_is_success() {
    assert!(parse_response_to_value(r#"{"data":[1,2]}"#).is_ok());
}

#[test]
fn error_null_is_success() {
    assert!(parse_response_to_value(r#"{"error":null,"results":{}}"#).is_ok());
}

#[test]
fn error_string_is_success() {
    assert!(parse_response_to_value(r#"{"error":"bad"}"#).is_ok());
}

#[test]
fn error_array_is_success() {
    assert!(parse_response_to_value(r#"{"error":[],"results":7}"#).is_ok());
}

#[test]
fn error_number_is_success() {
    assert!(parse_response_to_value(r#"{"error":12}"#).is_ok());
}

#[test]
fn non_object_envelope_is_success() {
    assert!(parse_response_to_value("42").is_ok());
}

#[test]
fn unparsable_body_is_a_json_failure() {
    match parse_response_to_value("this is not json") {
        Err(DeezerError::JsonError(_)) => {}
        other => panic!("expected a parse failure, got {:?}", other),
    }
}
