use vstd::prelude::*;
use std::collections::HashMap;

verus! {

#[derive(Debug, Clone)]
pub struct Rights {
    pub stream_ads_available: Option<bool>,
    pub stream_ads: Option<String>,
    pub stream_sub_available: Option<bool>,
    pub stream_sub: Option<String>,
}

#[derive(Debug, Clone)]
pub struct ExplicitContent {
    pub explicit_lyrics_status: i32,
    pub explicit_cover_status: i32,
}

#[derive(Debug, Clone)]
pub enum Locales {
    Locale(HashMap<String, HashMap<String, String>>),
    Empty(Vec<String>),
}

#[derive(Debug, Clone)]
pub struct Media {
    pub media_type: String,
    pub href: String,
}

#[derive(Debug, Clone)]
pub struct Lyrics {
    pub lyrics_id: String,
    pub lyrics_sync_json: Option<Vec<LyricsSyncItem>>,
    pub lyrics_text: String,
    pub lyrics_copyrights: String,
    pub lyrics_writers: String,
}

#[derive(Debug, Clone)]
pub struct LyricsSyncItem {
    pub lrc_timestamp: Option<String>,
    pub milliseconds: Option<String>,
    pub duration: Option<String>,
    pub line: String,
}

#[derive(Debug, Clone)]
pub struct Isrc {
    pub data: Vec<IsrcData>,
    pub count: i64,
    pub total: i64,
}

#[derive(Debug, Clone)]
pub struct IsrcData {
    pub art_name: String,
    pub art_id: String,
    pub alb_picture: String,
    pub alb_id: String,
    pub alb_title: String,
    pub duration: String,
    pub digital_release_date: String,
    pub rights: Rights,
    pub lyrics_id: i64,
    pub __type__: String,
}

#[derive(Debug, Clone)]
pub struct RelatedAlbums {
    pub data: Vec<RelatedAlbumsData>,
    pub count: i64,
    pub total: i64,
}

#[derive(Debug, Clone)]
pub struct RelatedAlbumsData {
    pub art_name: String,
    pub art_id: String,
    pub alb_picture: String,
    pub alb_id: String,
    pub alb_title: String,
    pub duration: String,
    pub digital_release_date: String,
    pub rights: Rights,
    pub lyrics_id: i64,
    pub __type__: String,
}

#[derive(Debug, Clone)]
pub enum SngContributors {
    SngContributors(HashMap<String, Vec<String>>),
    Empty(Vec<String>),
}

#[derive(Debug, Clone)]
pub struct AvailableCountries {
    pub stream_ads: Vec<String>,
    pub stream_sub_only: Vec<String>,
}

#[derive(Debug, Clone)]
pub struct Artist {
    pub art_id: String,
    pub role_id: String,
    pub artists_songs_order: String,
    pub art_name: String,
    pub artist_is_dummy: bool,
    pub art_picture: String,
    pub rank: String,
    pub locales: Locales,
    pub __type__: String,
}

} // verus!
