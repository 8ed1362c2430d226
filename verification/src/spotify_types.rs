//! The streaming service's account and library types: the tokens the
//! authorization yields, the playlists, and the shapes of the library
//! answers the conversion functions read.

use vstd::prelude::*;

verus! {

/// The tokens and display name an authorization yields.
#[derive(Debug, Clone)]
pub struct Tokens {
    pub access_token: String,
    pub refresh_token: String,
    pub display_name: String,
}

/// One playlist of the connected account.
#[derive(Debug)]
pub struct Playlist {
    pub id: String,
    pub name: String,
    pub nb_tracks: u32,
}

impl Clone for Playlist {
    fn clone(&self) -> (r: Self)
        ensures
            r == *self,
    {
        Playlist {
            id: self.id.clone(),
            name: self.name.clone(),
            nb_tracks: self.nb_tracks,
        }
    }
}

/// What the token endpoint answers.
#[derive(Debug, Clone)]
pub struct TokenRes {
    pub access_token: String,
    pub refresh_token: Option<String>,
}

/// What the profile endpoint answers.
#[derive(Debug, Clone)]
pub struct ProfileRes {
    pub display_name: Option<String>,
}

/// One page of the playlists listing.
#[derive(Debug, Clone)]
pub struct PlaylistsRes {
    pub items: Vec<RawPlaylist>,
    pub next: Option<String>,
}

/// One playlist as the listing delivers it.
#[derive(Debug, Clone)]
pub struct RawPlaylist {
    pub id: String,
    pub name: String,
    pub tracks: PlaylistTracksRef,
}

/// The track-count reference inside a playlist entry.
#[derive(Debug, Clone)]
pub struct PlaylistTracksRef {
    pub total: u32,
}

/// One page of a playlist's tracks.
#[derive(Debug, Clone)]
pub struct PlaylistTracksRes {
    pub items: Vec<PlaylistItem>,
    pub next: Option<String>,
}

/// One playlist entry; the track is absent for entries the service no longer
/// resolves.
#[derive(Debug, Clone)]
pub struct PlaylistItem {
    pub track: Option<RawTrack>,
}

/// One page of the liked-tracks listing.
#[derive(Debug, Clone)]
pub struct SavedTracksRes {
    pub items: Vec<SavedTrack>,
    pub next: Option<String>,
}

/// One liked-tracks entry.
#[derive(Debug, Clone)]
pub struct SavedTrack {
    pub track: RawTrack,
}

/// One track as the service delivers it. `duration_ms` is in whole
/// milliseconds.
#[derive(Debug, Clone)]
pub struct RawTrack {
    pub name: String,
    pub duration_ms: u64,
    pub track_number: Option<u32>,
    pub artists: Vec<RawArtist>,
    pub album: Option<RawAlbum>,
}

/// One artist reference inside a service track.
#[derive(Debug, Clone)]
pub struct RawArtist {
    pub name: String,
}

/// One album reference inside a service track.
#[derive(Debug, Clone)]
pub struct RawAlbum {
    pub name: String,
    pub images: Vec<Image>,
}

/// One cover image reference.
#[derive(Debug, Clone)]
pub struct Image {
    pub url: String,
}

} // verus!
