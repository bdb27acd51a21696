//! Path building: default page-size injection, URL resolution against the
//! catalog base, and the search and track-search query shapes.

use deezer::blocking::catalog_request_target;
use deezer::query::{id_path, search_path, text_path, track_stage_path, with_default_limit};
use deezer::text::u64_to_dec;

#[test]
fn limit_injected_when_absent() {
    let r = with_default_limit(b"search?q=test");
    assert_eq!(r, b"search?q=test&limit=100".to_vec());
}

#[test]
fn limit_preserved_when_present() {
    let r = with_default_limit(b"search?q=test&limit=25");
    assert_eq!(r, b"search?q=test&limit=25".to_vec());
}

#[test]
fn limit_appended_after_bare_path() {
    let r = with_default_limit(b"artist/27/albums");
    assert_eq!(r, b"artist/27/albums?limit=100".to_vec());
}

#[test]
fn limit_added_despite_similar_key() {
    let r = with_default_limit(b"search?q=test&limits=5");
    assert_eq!(r, b"search?q=test&limits=5&limit=100".to_vec());
}

#[test]
fn bare_limit_key_counts_as_present() {
    // a key without `=` parses as binding the empty value, and is written
    // back out in key=value form
    let r = with_default_limit(b"search?q=test&limit");
    assert_eq!(r, b"search?q=test&limit=".to_vec());
}

#[test]
fn duplicate_keys_collapse_to_the_last_value() {
    let r = with_default_limit(b"search?q=a&q=b");
    assert_eq!(r, b"search?q=b&limit=100".to_vec());
    let r = with_default_limit(b"search?q=a&limit=7&q=b&limit=9");
    assert_eq!(r, b"search?q=b&limit=9".to_vec());
}

#[test]
fn empty_query_segments_are_dropped() {
    let r = with_default_limit(b"search?a=1&&b=2&");
    assert_eq!(r, b"search?a=1&b=2&limit=100".to_vec());
}

#[test]
fn catalog_target_resolves_against_base() {
    let t = catalog_request_target(&b"search?q=test".to_vec()).unwrap();
    assert_eq!(t, b"https://api.deezer.com/search?q=test&limit=100".to_vec());
}

#[test]
fn catalog_target_keeps_absolute_next_links() {
    let next = b"https://api.deezer.com/album/27/tracks?index=25&limit=25".to_vec();
    let t = catalog_request_target(&next).unwrap();
    assert_eq!(t, next);
}

#[test]
fn unresolvable_path_is_a_parse_failure() {
    match catalog_request_target(&b"https://[".to_vec()) {
        Err(deezer::DeezerError::ParseError(_)) => {}
        other => panic!("expected a resolution failure, got {:?}", other),
    }
}

#[test]
fn search_path_carries_query_and_flag() {
    let p = search_path("search", b"Hans Zimmer", false);
    assert_eq!(p, b"search?q=Hans Zimmer&strict=off".to_vec());
    let p = search_path("search/album", b"Eric Prydz", true);
    assert_eq!(p, b"search/album?q=Eric Prydz&strict=on".to_vec());
}

#[test]
fn track_stage_paths_drop_terms_in_order() {
    let full = track_stage_path(b"Candy Shop", Some(b"50 Cent"), Some(b"The Massacre"), false);
    assert_eq!(
        full,
        br#"search/track?q=track:"Candy Shop" artist:"50 Cent" album:"The Massacre"&strict=off"#
            .to_vec()
    );
    let two = track_stage_path(b"Candy Shop", Some(b"50 Cent"), None, false);
    assert_eq!(
        two,
        br#"search/track?q=track:"Candy Shop" artist:"50 Cent"&strict=off"#.to_vec()
    );
    let one = track_stage_path(b"Candy Shop", None, None, true);
    assert_eq!(one, br#"search/track?q=track:"Candy Shop"&strict=on"#.to_vec());
}

#[test]
fn id_paths_format_in_decimal() {
    assert_eq!(id_path("album/", 302127, "/tracks"), b"album/302127/tracks".to_vec());
    assert_eq!(id_path("track/", 0, ""), b"track/0".to_vec());
    assert_eq!(text_path("track/isrc:", "GBUM71507634"), b"track/isrc:GBUM71507634".to_vec());
}

#[test]
fn decimal_formatting_is_exact() {
    assert_eq!(u64_to_dec(0), b"0".to_vec());
    assert_eq!(u64_to_dec(7), b"7".to_vec());
    assert_eq!(u64_to_dec(100), b"100".to_vec());
    assert_eq!(u64_to_dec(u64::MAX), b"18446744073709551615".to_vec());
}
