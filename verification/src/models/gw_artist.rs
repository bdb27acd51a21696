use vstd::prelude::*;
use super::gw_shared::Locales;

verus! {

#[derive(Debug, Clone)]
pub struct ArtistData {
    pub art_id: String,
    pub art_name: String,
    pub url_rewriting: String,
    pub art_picture: String,
    pub nb_fan: i64,
    pub url: String,
    pub twitter: String,
    pub facebook: String,
    pub status: Status,
    pub user_id: String,
    pub data: ArtistDataData,
    pub __type__: String,
    pub smartradio: bool,
}

#[derive(Debug, Clone)]
pub struct ArtistDataData {
    pub locales: Locales,
    pub copyright_picture: Option<String>,
    pub art_banner: Option<String>,
    pub art_banner_align: Option<String>,
    pub art_banner_bgcolor: Option<String>,
    pub art_banner_link: Option<String>,
    pub disable_catalog: Option<bool>,
}

#[derive(Debug, Clone)]
pub struct Status {
    pub status: String,
    pub date: String,
}

#[derive(Debug, Clone)]
pub struct Payload {
    pub country_rank: Option<i64>,
    pub global_rank: Option<i64>,
    pub score: Option<i64>,
}

#[derive(Debug, Clone)]
pub enum Bio {
    BioData(BioData),
    BioBool(bool),
}

#[derive(Debug, Clone)]
pub struct BioData {
    pub bio: String,
    pub resume: String,
    pub source: String,
}

#[derive(Debug, Clone)]
pub struct SelectedPlaylist {
    pub playlists: Vec<Playlist>,
    pub count: i64,
    pub total: i64,
    pub version: Option<i64>,
    pub filtered_count: Option<i64>,
}

#[derive(Debug, Clone)]
pub struct Playlist {
    pub playlist_id: String,
    pub title: String,
    pub playlist_picture: String,
    pub picture_type: String,
    pub parent_user_id: String,
    pub parent_username: String,
    pub nb_fan: i64,
    pub nb_song: i64,
    pub status: i64,
    pub __type__: String,
    pub __payload__: Option<Payload>,
}

#[derive(Debug, Clone)]
pub struct RelatedArtistData {
    pub art_id: String,
    pub art_name: String,
    pub art_picture: String,
    pub nb_fan: i64,
    pub url_rewriting: String,
    pub data: RelatedArtistDataData,
    pub __type__: String,
    pub __payload__: Option<Payload>,
}

#[derive(Debug, Clone)]
pub struct RelatedArtistDataData {
    pub locales: Locales,
    pub copyright_picture: Option<String>,
    pub copyright_banner: Option<String>,
    pub disable_catalog: Option<bool>,
}

#[derive(Debug, Clone)]
pub struct AlbumSubtypes {
    pub is_studio: bool,
    pub is_live: bool,
    pub is_compilation: bool,
    pub is_karaoke: bool,
}

#[derive(Debug, Clone)]
pub struct AlbumArtist {
    pub art_id: String,
    pub role_id: String,
    pub artists_albums_order: String,
    pub art_name: String,
    pub art_picture: String,
    pub rank: String,
    pub locales: Locales,
    pub artist_is_dummy: bool,
    pub __type__: String,
}

} // verus!
