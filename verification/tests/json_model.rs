//! The crate's own JSON tree: member lookup, page splitting, rendering,
//! and the stage decision of the track search.

use deezer::blocking::{first_hit, parse_response_to_value, sng_ids_body, Deezer};
use deezer::json::{envelope_error, into_array, render, split_page, take_field, Json};

fn obj(fields: Vec<(&[u8], Json)>) -> Json {
    Json::Obj(fields.into_iter().map(|(k, v)| (k.to_vec(), v)).collect())
}

#[test]
fn take_field_moves_the_member_out() {
    let env = obj(vec![
        (b"results", Json::Str(b"tok".to_vec())),
        (b"other", Json::Null),
    ]);
    assert_eq!(take_field(env, "results"), Json::Str(b"tok".to_vec()));
}

#[test]
fn take_field_defaults_to_null() {
    let env = obj(vec![(b"other", Json::Bool(true))]);
    assert_eq!(take_field(env, "results"), Json::Null);
    assert_eq!(take_field(Json::Num(b"7".to_vec()), "results"), Json::Null);
}

#[test]
fn take_field_picks_the_first_binding() {
    let env = obj(vec![
        (b"k", Json::Num(b"1".to_vec())),
        (b"k", Json::Num(b"2".to_vec())),
    ]);
    assert_eq!(take_field(env, "k"), Json::Num(b"1".to_vec()));
}

#[test]
fn split_page_reads_data_and_next() {
    let env = obj(vec![
        (b"data", Json::Arr(vec![Json::Num(b"1".to_vec()), Json::Num(b"2".to_vec())])),
        (b"next", Json::Str(b"album/1/tracks?index=25".to_vec())),
    ]);
    let (data, next) = split_page(env);
    assert_eq!(into_array(data).unwrap().len(), 2);
    assert_eq!(next, Some(b"album/1/tracks?index=25".to_vec()));
}

#[test]
fn split_page_stops_on_non_string_next() {
    let env = obj(vec![
        (b"data", Json::Arr(vec![])),
        (b"next", Json::Num(b"25".to_vec())),
    ]);
    let (_, next) = split_page(env);
    assert_eq!(next, None);
    let env = obj(vec![(b"data", Json::Arr(vec![]))]);
    let (_, next) = split_page(env);
    assert_eq!(next, None);
}

#[test]
fn envelope_error_keeps_only_objects() {
    let bad = obj(vec![(b"error", obj(vec![(b"code", Json::Num(b"4".to_vec()))]))]);
    assert_eq!(envelope_error(&bad), Some(b"{\"code\":4}".to_vec()));
    let fine = obj(vec![(b"error", Json::Str(b"x".to_vec()))]);
    assert_eq!(envelope_error(&fine), None);
    assert_eq!(envelope_error(&Json::Null), None);
}

#[test]
fn rendering_is_compact_and_escaped() {
    let v = obj(vec![
        (b"a", Json::Str(b"q\"b\\c\nd\x01".to_vec())),
        (b"b", Json::Arr(vec![Json::Null, Json::Bool(false), Json::Num(b"1.5".to_vec())])),
    ]);
    assert_eq!(
        render(&v),
        b"{\"a\":\"q\\\"b\\\\c\\nd\\u0001\",\"b\":[null,false,1.5]}".to_vec()
    );
}

#[test]
fn first_hit_takes_the_head_of_a_non_empty_stage() {
    let hits = vec![Json::Num(b"1".to_vec()), Json::Num(b"2".to_vec())];
    assert_eq!(first_hit(hits), Some(Json::Num(b"1".to_vec())));
    assert_eq!(first_hit(Vec::new()), None);
}

#[test]
fn batch_lookup_body_binds_the_ids() {
    let body = sng_ids_body(&vec![354344, 3545446, 4363245]);
    assert_eq!(render(&body), b"{\"sng_ids\":[354344,3545446,4363245]}".to_vec());
    let empty = sng_ids_body(&Vec::new());
    assert_eq!(render(&empty), b"{\"sng_ids\":[]}".to_vec());
}

#[test]
fn token_extraction_reads_check_form() {
    let env = obj(vec![(
        b"results",
        obj(vec![(b"checkForm", Json::Str(b"tok123".to_vec()))]),
    )]);
    assert_eq!(Deezer::token_from_user_data(env), Some("tok123".to_string()));
    let missing = obj(vec![(b"results", obj(vec![]))]);
    assert_eq!(Deezer::token_from_user_data(missing), None);
    let wrong_shape = obj(vec![(
        b"results",
        obj(vec![(b"checkForm", Json::Num(b"7".to_vec()))]),
    )]);
    assert_eq!(Deezer::token_from_user_data(wrong_shape), None);
}

#[test]
fn token_extraction_from_a_parsed_user_data_body() {
    let body = r#"{"error":[],"results":{"checkForm":"abc123xyz"}}"#;
    let env = parse_response_to_value(body).unwrap();
    assert_eq!(Deezer::token_from_user_data(env), Some("abc123xyz".to_string()));
}
