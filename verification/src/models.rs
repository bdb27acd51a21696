//! The catalog's data-transfer records: the shapes the decoders populate.

pub mod album;
pub mod api;
pub mod artist;
pub mod gw;
pub mod gw_album;
pub mod gw_artist;
pub mod gw_shared;
pub mod gw_song;
pub mod gw_track;
pub mod shared;
pub mod track;
