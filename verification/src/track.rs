//! Identifiers and metadata of tracks, artists and collections.

use vstd::prelude::*;

verus! {

/// What kind of audio an identifier refers to.
#[derive(Clone, Copy, Debug, PartialEq, Eq, Structural, Hash)]
pub enum SpotifyAudioType {
    Track,
    Podcast,
    NonPlayable,
}

/// An opaque identifier of a track, an artist or a collection.
#[derive(Clone, Copy, Debug, PartialEq, Eq, Structural, Hash)]
pub struct SpotifyId {
    pub id: u128,
    pub audio_type: SpotifyAudioType,
}

impl SpotifyId {
    /// The identifier of the playable track numbered `id`.
    pub fn track(id: u128) -> (r: SpotifyId)
        ensures
            r == (SpotifyId { id, audio_type: SpotifyAudioType::Track }),
    {
        SpotifyId { id, audio_type: SpotifyAudioType::Track }
    }
}

/// A track's metadata: its identifier, its title and who performs it.
#[derive(Clone, Debug, PartialEq, Eq)]
pub struct Track {
    pub id: SpotifyId,
    pub name: String,
    pub artists: Vec<SpotifyId>,
}

/// What a `Track` holds, as plain values.
pub struct TrackView {
    pub id: SpotifyId,
    pub name: Seq<char>,
    pub artists: Seq<SpotifyId>,
}

impl View for Track {
    type V = TrackView;

    open spec fn view(&self) -> TrackView {
        TrackView { id: self.id, name: self.name@, artists: self.artists@ }
    }
}

impl Track {
    /// The artist under whose name the track is shown: the first of its
    /// artists.
    pub fn first_artist(&self) -> (artist: SpotifyId)
        requires
            self@.artists.len() > 0,
        ensures
            artist == self@.artists[0],
    {
        self.artists[0]
    }
}

/// An artist's metadata.
#[derive(Clone, Debug, PartialEq, Eq)]
pub struct Artist {
    pub id: SpotifyId,
    pub name: String,
}

/// What an `Artist` holds, as plain values.
pub struct ArtistView {
    pub id: SpotifyId,
    pub name: Seq<char>,
}

impl View for Artist {
    type V = ArtistView;

    open spec fn view(&self) -> ArtistView {
        ArtistView { id: self.id, name: self.name@ }
    }
}

/// An album: a title and its tracks in album order.
#[derive(Clone, Debug, PartialEq, Eq)]
pub struct Album {
    pub id: SpotifyId,
    pub name: String,
    pub tracks: Vec<SpotifyId>,
}

/// A playlist: a title and its tracks in playlist order.
#[derive(Clone, Debug, PartialEq, Eq)]
pub struct Playlist {
    pub name: String,
    pub tracks: Vec<SpotifyId>,
}

} // verus!
