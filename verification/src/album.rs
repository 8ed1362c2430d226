//! The album model and its conversion from a catalog search entry.

use vstd::prelude::*;

verus! {

/// One album in the search results.
#[derive(Debug)]
pub struct Album {
    pub id: u64,
    pub title: String,
    pub artist: String,
    pub cover_url: String,
    pub nb_tracks: u32,
}

/// An album search answer: the list of entries it carries.
#[derive(Debug, Clone)]
pub struct DzAlbumRes {
    pub data: Vec<DzAlbum>,
}

/// One album entry as the catalog delivers it.
#[derive(Debug, Clone)]
pub struct DzAlbum {
    pub id: u64,
    pub title: String,
    pub nb_tracks: u32,
    pub cover_xl: String,
    pub artist: Option<DzAlbumArtist>,
}

/// The artist reference carried inside a catalog album entry.
#[derive(Debug, Clone)]
pub struct DzAlbumArtist {
    pub name: String,
}

impl Clone for Album {
    fn clone(&self) -> (r: Self)
        ensures
            r == *self,
    {
        Album {
            id: self.id,
            title: self.title.clone(),
            artist: self.artist.clone(),
            cover_url: self.cover_url.clone(),
            nb_tracks: self.nb_tracks,
        }
    }
}

impl Album {
    /// Convert one catalog album entry.
    pub fn from_dz(da: &DzAlbum) -> (r: Self)
        ensures
            r.id == da.id,
            r.title@ == da.title@,
            r.artist@ == (match da.artist {
                Some(a) => a.name@,
                None => Seq::<char>::empty(),
            }),
            r.cover_url@ == da.cover_xl@,
            r.nb_tracks == da.nb_tracks,
    {
        let artist = match &da.artist {
            Some(a) => a.name.clone(),
            None => String::new(),
        };
        Album {
            id: da.id,
            title: da.title.clone(),
            artist,
            cover_url: da.cover_xl.clone(),
            nb_tracks: da.nb_tracks,
        }
    }
}

} // verus!
