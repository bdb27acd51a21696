use vstd::prelude::*;

verus! {

#[derive(Debug, Clone)]
pub struct GenresData {
    pub data: Vec<Genre>,
}

#[derive(Debug, Clone)]
pub struct Genre {
    pub id: u64,
    pub name: String,
    pub picture: String,
    pub type_field: String,
}

#[derive(Debug, Clone)]
pub struct Contributor {
    pub id: u64,
    pub name: String,
    pub link: String,
    pub share: String,
    pub picture: String,
    pub picture_small: String,
    pub picture_medium: String,
    pub picture_big: String,
    pub picture_xl: String,
    pub radio: bool,
    pub tracklist: String,
    pub type_field: String,
    pub role: String,
}

#[derive(Debug, Clone)]
pub struct Artist {
    pub id: u64,
    pub name: String,
    pub link: Option<String>,
    pub share: Option<String>,
    pub picture: Option<String>,
    pub picture_small: Option<String>,
    pub picture_medium: Option<String>,
    pub picture_big: Option<String>,
    pub picture_xl: Option<String>,
    pub nb_album: Option<u64>,
    pub nb_fan: Option<u64>,
    pub radio: Option<bool>,
    pub tracklist: String,
    pub type_field: String,
}

#[derive(Debug, Clone)]
pub struct Playlist {
    pub id: u64,
    pub title: String,
    pub public: bool,
    pub nb_tracks: Option<u64>,
    pub link: String,
    pub picture: String,
    pub picture_small: String,
    pub picture_medium: String,
    pub picture_big: String,
    pub picture_xl: String,
    pub checksum: String,
    pub tracklist: String,
    pub creation_date: String,
    pub md5_image: String,
    pub picture_type: String,
    pub user: PlaylistUser,
    pub type_field: String,
}

#[derive(Debug, Clone)]
pub struct PlaylistUser {
    pub id: u64,
    pub name: String,
    pub tracklist: String,
    pub type_field: String,
}

#[derive(Debug, Clone)]
pub struct RelatedArtist {
    pub id: u64,
    pub name: String,
    pub link: String,
    pub picture: String,
    pub picture_small: String,
    pub picture_medium: String,
    pub picture_big: String,
    pub picture_xl: String,
    pub nb_album: u64,
    pub nb_fan: u64,
    pub radio: bool,
    pub tracklist: String,
    pub type_field: String,
}

#[derive(Debug, Clone)]
pub struct Editorial {
    pub id: u64,
    pub name: String,
    pub picture: String,
    pub picture_small: String,
    pub picture_medium: String,
    pub picture_big: String,
    pub picture_xl: String,
    pub type_field: String,
}

} // verus!
