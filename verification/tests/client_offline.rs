//! The client without a reachable network: construction succeeds, a failed
//! refresh returns the sentinel and leaves the stored token as it was, and
//! catalog calls surface the transport failure.

use deezer::blocking::Deezer;
use deezer::DeezerError;

#[test]
fn failed_refresh_returns_the_sentinel() {
    let mut d = Deezer::new().expect("transport should build");
    // with no network, every refresh attempt fails and hands back "null"
    assert_eq!(d.refresh_token(), "null");
    assert_eq!(d.refresh_token(), "null");
}

#[test]
fn offline_catalog_call_is_a_transport_failure() {
    let d = Deezer::new().expect("transport should build");
    match d.track(1141668) {
        Err(DeezerError::RequestError(_)) => {}
        other => panic!("expected a transport failure, got {:?}", other),
    }
}

#[test]
fn offline_track_search_fails_at_the_first_stage() {
    let d = Deezer::new().expect("transport should build");
    // the transport failure of the first stage propagates; the not-found
    // sentinel is reserved for three empty stages
    match d.search_track("Candy Shop", "50 Cent", "The Massacre", false) {
        Err(DeezerError::RequestError(_)) => {}
        other => panic!("expected a transport failure, got {:?}", other),
    }
}

#[test]
fn offline_batch_lookup_builds_its_url_before_failing() {
    let mut d = Deezer::new().expect("transport should build");
    // the query-string construction succeeds, so the failure is the
    // transport's, not the URL builder's
    match d.gw_songs(&vec![354344, 3545446]) {
        Err(DeezerError::RequestError(_)) => {}
        other => panic!("expected a transport failure, got {:?}", other),
    }
}
