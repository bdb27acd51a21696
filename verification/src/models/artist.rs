use vstd::prelude::*;

verus! {

#[derive(Debug, Clone)]
pub struct Artist {
    pub id: u64,
    pub name: String,
    pub link: String,
    pub share: String,
    pub picture: String,
    pub picture_small: String,
    pub picture_medium: String,
    pub picture_big: String,
    pub picture_xl: String,
    pub radio: bool,
    pub tracklist: String,
    pub type_field: String,
}

#[derive(Debug, Clone)]
pub struct TrackAlbum {
    pub id: u64,
    pub title: String,
    pub cover: String,
    pub cover_small: String,
    pub cover_medium: String,
    pub cover_big: String,
    pub cover_xl: String,
    pub md5_image: String,
    pub tracklist: String,
    pub type_field: String,
}

#[derive(Debug, Clone)]
pub struct TrackArtist {
    pub id: u64,
    pub name: String,
    pub tracklist: String,
    pub type_field: String,
}

#[derive(Debug, Clone)]
pub struct RelatedArtist {
    pub id: u64,
    pub name: String,
    pub link: String,
    pub picture: String,
    pub picture_small: String,
    pub picture_medium: String,
    pub picture_big: String,
    pub picture_xl: String,
    pub nb_album: u64,
    pub nb_fan: u64,
    pub radio: bool,
    pub tracklist: String,
    pub type_field: String,
}

} // verus!
