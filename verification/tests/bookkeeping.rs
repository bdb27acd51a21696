//! The private-API bookkeeping fields: every request map binds a non-empty
//! `api_token`, `api_version` fixed at `"1.0"`, `method`, and `input`,
//! whatever the method and whatever the caller's own parameters.

use deezer::form::{gw_params, params_get};

fn field(p: &Vec<(Vec<u8>, Vec<u8>)>, key: &[u8]) -> Vec<u8> {
    match params_get(p, key) {
        Some(v) => v,
        None => panic!("missing field {:?}", String::from_utf8_lossy(key)),
    }
}

#[test]
fn user_data_call_carries_all_bookkeeping() {
    let mut p: Vec<(Vec<u8>, Vec<u8>)> = Vec::new();
    gw_params(&mut p, b"null", b"deezer.getUserData");
    assert_eq!(field(&p, b"api_token"), b"null".to_vec());
    assert_eq!(field(&p, b"api_version"), b"1.0".to_vec());
    assert_eq!(field(&p, b"method"), b"deezer.getUserData".to_vec());
    assert_eq!(field(&p, b"input"), b"3".to_vec());
    assert!(!field(&p, b"api_token").is_empty());
    assert!(!field(&p, b"input").is_empty());
}

#[test]
fn extra_parameters_survive_and_are_counted() {
    let mut p: Vec<(Vec<u8>, Vec<u8>)> = vec![(b"sng_id".to_vec(), b"1141668".to_vec())];
    gw_params(&mut p, b"tok123", b"song.getData");
    assert_eq!(field(&p, b"sng_id"), b"1141668".to_vec());
    assert_eq!(field(&p, b"api_token"), b"tok123".to_vec());
    assert_eq!(field(&p, b"api_version"), b"1.0".to_vec());
    assert_eq!(field(&p, b"method"), b"song.getData".to_vec());
    assert_eq!(field(&p, b"input"), b"4".to_vec());
}

#[test]
fn caller_cannot_smuggle_bookkeeping_fields() {
    let mut p: Vec<(Vec<u8>, Vec<u8>)> = vec![(b"api_token".to_vec(), b"evil".to_vec())];
    gw_params(&mut p, b"real", b"song.getData");
    assert_eq!(field(&p, b"api_token"), b"real".to_vec());
    // the smuggled binding was replaced, not duplicated
    assert_eq!(field(&p, b"input"), b"3".to_vec());
    assert_eq!(p.len(), 4);
}
