use vstd::prelude::*;

verus! {

#[derive(Debug, Clone)]
pub struct Artist {
    pub id: i64,
    pub name: String,
    pub link: Option<String>,
    pub share: Option<String>,
    pub picture: String,
    pub picture_small: String,
    pub picture_medium: String,
    pub picture_big: String,
    pub picture_xl: String,
    pub radio: Option<bool>,
    pub tracklist: String,
    pub type_field: String,
}

#[derive(Debug, Clone)]
pub struct Contributor {
    pub id: i64,
    pub name: String,
    pub link: String,
    pub share: String,
    pub picture: String,
    pub picture_small: String,
    pub picture_medium: String,
    pub picture_big: String,
    pub picture_xl: String,
    pub radio: bool,
    pub tracklist: String,
    pub type_field: String,
    pub role: String,
}

} // verus!
