//! The shape of the web service's answers that list a user's playlists and
//! albums.

use vstd::prelude::*;

verus! {

/// The answer that lists a user's playlists.
#[derive(Clone, Debug, PartialEq, Eq)]
pub struct PlaylistsModel {
    pub items: Vec<PlaylistModel>,
}

/// One playlist of that list: its identifier in base 62.
#[derive(Clone, Debug, PartialEq, Eq)]
pub struct PlaylistModel {
    pub id: String,
}

/// The answer that lists a user's saved albums.
#[derive(Clone, Debug, PartialEq, Eq)]
pub struct AlbumsModel {
    pub items: Vec<AlbumWrapperModel>,
}

/// One entry of that list, which wraps the album.
#[derive(Clone, Debug, PartialEq, Eq)]
pub struct AlbumWrapperModel {
    pub album: AlbumModel,
}

/// An album as the web service describes it.
#[derive(Clone, Debug, PartialEq, Eq)]
pub struct AlbumModel {
    pub id: String,
    pub name: String,
    pub artists: Vec<ArtistModel>,
}

/// An artist as the web service describes it.
#[derive(Clone, Debug, PartialEq, Eq)]
pub struct ArtistModel {
    pub id: String,
    pub name: String,
}

} // verus!
