//! The artist model and its conversion from a catalog search entry.

use vstd::prelude::*;

verus! {

/// One artist in the search results.
#[derive(Debug)]
pub struct Artist {
    pub id: u64,
    pub name: String,
    pub nb_album: u32,
}

/// An artist search answer: the list of entries it carries.
#[derive(Debug, Clone)]
pub struct DzArtistRes {
    pub data: Vec<DzArtist>,
}

/// One artist entry as the catalog delivers it.
#[derive(Debug, Clone)]
pub struct DzArtist {
    pub id: u64,
    pub name: String,
    pub nb_album: u32,
}

impl Clone for Artist {
    fn clone(&self) -> (r: Self)
        ensures
            r == *self,
    {
        Artist {
            id: self.id,
            name: self.name.clone(),
            nb_album: self.nb_album,
        }
    }
}

impl Artist {
    /// Convert one catalog artist entry.
    pub fn from_dz(da: &DzArtist) -> (r: Self)
        ensures
            r.id == da.id,
            r.name@ == da.name@,
            r.nb_album == da.nb_album,
    {
        Artist {
            id: da.id,
            name: da.name.clone(),
            nb_album: da.nb_album,
        }
    }
}

} // verus!
