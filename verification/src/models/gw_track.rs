use vstd::prelude::*;
use super::gw_shared::Rights;

verus! {

#[derive(Debug, Clone)]
pub struct AvailableCountries {
    pub stream_ads: Vec<String>,
    pub stream_sub_only: Vec<String>,
}

#[derive(Debug, Clone)]
pub struct Lyrics {
    pub lyrics_id: String,
    pub lyrics_sync_json: Option<Vec<LyricsSyncJson>>,
    pub lyrics_text: String,
    pub lyrics_copyrights: String,
    pub lyrics_writers: String,
}

#[derive(Debug, Clone)]
pub struct LyricsSyncJson {
    pub lrc_timestamp: Option<String>,
    pub milliseconds: Option<String>,
    pub duration: Option<String>,
    pub line: String,
}

#[derive(Debug, Clone)]
pub struct Isrc {
    pub data: Vec<IsrcData>,
    pub count: i64,
    pub total: i64,
}

#[derive(Debug, Clone)]
pub struct IsrcData {
    pub art_name: String,
    pub art_id: String,
    pub alb_picture: String,
    pub alb_id: String,
    pub alb_title: String,
    pub duration: String,
    pub digital_release_date: String,
    pub rights: Rights,
    pub lyrics_id: i64,
    pub __type__: String,
}

#[derive(Debug, Clone)]
pub struct RelatedAlbums {
    pub data: Vec<RelatedAlbumsData>,
    pub count: i64,
    pub total: i64,
}

#[derive(Debug, Clone)]
pub struct RelatedAlbumsData {
    pub art_name: String,
    pub art_id: String,
    pub alb_picture: String,
    pub alb_id: String,
    pub alb_title: String,
    pub duration: String,
    pub digital_release_date: String,
    pub rights: Rights,
    pub lyrics_id: i64,
    pub __type__: String,
}

} // verus!
