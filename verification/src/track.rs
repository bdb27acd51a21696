use vstd::prelude::*;
use std::collections::HashMap;

verus! {

#[derive(Debug, Clone)]
pub struct Artist {
    pub art_id: String,
    pub role_id: String,
    pub artists_songs_order: String,
    pub art_name: String,
    pub artist_is_dummy: bool,
    pub art_picture: String,
    pub rank: String,
    pub locales: Locales,
    pub __type__: String,
}

#[derive(Debug, Clone)]
pub enum Locales {
    HashMapLocale(HashMap<String, HashMap<String, String>>),
    VecLocale(Vec<String>),
}

#[derive(Debug, Clone)]
pub enum SngContributors {
    HashMapSngContributors(HashMap<String, Vec<String>>),
    VecSngContributors(Vec<String>),
}

#[derive(Debug, Clone)]
pub struct Media {
    pub media_type: String,
    pub href: String,
}

#[derive(Debug, Clone)]
pub struct Rights {
    pub stream_ads_available: Option<bool>,
    pub stream_ads: Option<String>,
    pub stream_sub_available: Option<bool>,
    pub stream_sub: Option<String>,
}

#[derive(Debug, Clone)]
pub struct ExplicitTrackContent {
    pub explicit_lyrics_status: i32,
    pub explicit_cover_status: i32,
}

#[derive(Debug, Clone)]
pub struct AvailableCountries {
    pub stream_ads: Vec<String>,
    pub stream_sub_only: Vec<String>,
}

#[derive(Debug, Clone)]
pub struct Lyrics {
    pub lyrics_id: String,
    pub lyrics_sync_json: Option<Vec<LyricsSyncJson>>,
    pub lyrics_text: String,
    pub lyrics_copyrights: String,
    pub lyrics_writers: String,
}

#[derive(Debug, Clone)]
pub struct LyricsSyncJson {
    pub lrc_timestamp: Option<String>,
    pub milliseconds: Option<String>,
    pub duration: Option<String>,
    pub line: String,
}

#[derive(Debug, Clone)]
pub struct Isrc {
    pub data: Vec<IsrcData>,
    pub count: i64,
    pub total: i64,
}

#[derive(Debug, Clone)]
pub struct IsrcData {
    pub art_name: String,
    pub art_id: String,
    pub alb_picture: String,
    pub alb_id: String,
    pub alb_title: String,
    pub duration: String,
    pub digital_release_date: String,
    pub rights: Rights,
    pub lyrics_id: i64,
    pub __type__: String,
}

#[derive(Debug, Clone)]
pub struct RelatedAlbums {
    pub data: Vec<RelatedAlbumsData>,
    pub count: i64,
    pub total: i64,
}

#[derive(Debug, Clone)]
pub struct RelatedAlbumsData {
    pub art_name: String,
    pub art_id: String,
    pub alb_picture: String,
    pub alb_id: String,
    pub alb_title: String,
    pub duration: String,
    pub digital_release_date: String,
    pub rights: Rights,
    pub lyrics_id: i64,
    pub __type__: String,
}

#[derive(Debug, Clone)]
pub struct SongListItem {
    pub sng_id: String,
    pub alb_id: String,
    pub alb_picture: String,
    pub alb_title: String,
    pub artists: Vec<Artist>,
    pub art_id: String,
    pub art_name: String,
    pub digital_release_date: String,
    pub disk_number: String,
    pub duration: String,
    pub explicit_lyrics: String,
    pub explicit_track_content: ExplicitTrackContent,
    pub genre_id: String,
    pub isrc: String,
    pub lyrics_id: i64,
    pub physical_release_date: String,
    pub provider_id: String,
    pub rank_sng: String,
    pub smartradio: i64,
    pub sng_title: String,
    pub status: i64,
    pub track_number: String,
    pub type_field: i64,
    pub upload_id: Option<i64>,
    pub user_id: i64,
    pub version: Option<String>,
    pub filesize_aac_64: String,
    pub filesize_mp3_64: String,
    pub filesize_mp3_128: String,
    pub filesize_mp3_256: String,
    pub filesize_mp3_320: String,
    pub filesize_mp4_ra1: String,
    pub filesize_mp4_ra2: String,
    pub filesize_mp4_ra3: String,
    pub filesize_flac: String,
    pub filesize: String,
    pub gain: Option<String>,
    pub media_version: String,
    pub track_token: String,
    pub track_token_expire: i64,
    pub media: Vec<Media>,
    pub rights: Rights,
    pub __type__: String,
}

} // verus!
