use vstd::prelude::*;

verus! {

#[derive(Debug, Clone)]
pub struct GenresData {
    pub data: Vec<Genre>,
}

#[derive(Debug, Clone)]
pub struct Genre {
    pub id: u64,
    pub name: String,
    pub picture: String,
    pub type_field: String,
}

#[derive(Debug, Clone)]
pub struct Artist {
    pub id: u64,
    pub name: String,
    pub picture: String,
    pub picture_small: String,
    pub picture_medium: String,
    pub picture_big: String,
    pub picture_xl: String,
    pub tracklist: String,
    pub type_field: String,
}

#[derive(Debug, Clone)]
pub struct TrackAlbum {
    pub id: u64,
    pub title: String,
    pub cover: String,
    pub cover_small: String,
    pub cover_medium: String,
    pub cover_big: String,
    pub cover_xl: String,
    pub md5_image: String,
    pub tracklist: String,
    pub type_field: String,
}

#[derive(Debug, Clone)]
pub struct TrackArtist {
    pub id: u64,
    pub name: String,
    pub tracklist: String,
    pub type_field: String,
}

#[derive(Debug, Clone)]
pub struct AlbumTrack {
    pub id: u64,
    pub readable: bool,
    pub title: String,
    pub title_short: String,
    pub title_version: String,
    pub isrc: String,
    pub link: String,
    pub duration: u64,
    pub track_position: u64,
    pub disk_number: u64,
    pub rank: u64,
    pub explicit_lyrics: bool,
    pub explicit_content_lyrics: u8,
    pub explicit_content_cover: u8,
    pub preview: String,
    pub md5_image: String,
    pub artist: AlbumTrackArtist,
    pub type_field: String,
}

#[derive(Debug, Clone)]
pub struct AlbumTrackArtist {
    pub id: u64,
    pub name: String,
    pub tracklist: String,
    pub type_field: String,
}

} // verus!
