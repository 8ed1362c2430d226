//! The track descriptor: the immutable value describing one item to acquire,
//! and the status a download record can be in.

use vstd::prelude::*;
use vstd::string::StringExecFns;

use crate::strutil::{dec_rep, dec_rep2, u64_to_string, u64_to_string2};

verus! {

/// One track to acquire. `duration` is in whole seconds; `cover_url` empty
/// means there is no cover; `is_album_track` selects nested-folder placement.
#[derive(Debug)]
pub struct Track {
    pub title: String,
    pub artist: String,
    pub album: String,
    pub duration: u64,
    pub track_pos: Option<u32>,
    pub cover_url: String,
    pub is_album_track: bool,
}

impl Clone for Track {
    fn clone(&self) -> (r: Self)
        ensures
            r == *self,
    {
        Track {
            title: self.title.clone(),
            artist: self.artist.clone(),
            album: self.album.clone(),
            duration: self.duration,
            track_pos: self.track_pos,
            cover_url: self.cover_url.clone(),
            is_album_track: self.is_album_track,
        }
    }
}

impl Default for Track {
    fn default() -> (r: Self)
        ensures
            r.title@ == Seq::<char>::empty(),
            r.artist@ == Seq::<char>::empty(),
            r.album@ == Seq::<char>::empty(),
            r.duration == 0,
            r.track_pos is None,
            r.cover_url@ == Seq::<char>::empty(),
            !r.is_album_track,
    {
        Track {
            title: String::new(),
            artist: String::new(),
            album: String::new(),
            duration: 0,
            track_pos: None,
            cover_url: String::new(),
            is_album_track: false,
        }
    }
}

/// The status of one download record. The percentage carried by `Active` is
/// in hundredths of a percent.
#[derive(Debug, PartialEq)]
pub enum DlStatus {
    Queued,
    Active(u32),
    Done,
    Failed(String),
}

impl Clone for DlStatus {
    fn clone(&self) -> (r: Self)
        ensures
            r == *self,
    {
        match self {
            DlStatus::Queued => DlStatus::Queued,
            DlStatus::Active(p) => DlStatus::Active(*p),
            DlStatus::Done => DlStatus::Done,
            DlStatus::Failed(e) => DlStatus::Failed(e.clone()),
        }
    }
}

impl DlStatus {
    /// A record in a terminal state never leaves it.
    pub open spec fn is_terminal(&self) -> bool {
        self is Done || self is Failed
    }
}

/// A track listing answer: the list of entries it carries.
#[derive(Debug, Clone)]
pub struct DzTrackRes {
    pub data: Vec<DzTrack>,
}

/// A track as the catalog's track listing delivers it; the fields the library
/// reads from one entry of the listing.
#[derive(Debug, Clone)]
pub struct DzTrack {
    pub title: String,
    pub duration: u64,
    pub track_position: Option<u32>,
    pub artist: Option<DzArtist>,
    pub album: Option<DzAlbumRef>,
}

/// The artist reference carried inside a catalog track entry.
#[derive(Debug, Clone)]
pub struct DzArtist {
    pub name: String,
}

/// The album reference carried inside a catalog track entry.
#[derive(Debug, Clone)]
pub struct DzAlbumRef {
    pub title: String,
    pub cover_xl: String,
}

/// The cover a converted track carries: the entry's own cover when it has a
/// non-empty one, the fallback otherwise.
pub open spec fn dz_cover_choice(dt: &DzTrack, cover_fb: Seq<char>) -> Seq<char> {
    match dt.album {
        Some(a) => if a.cover_xl@.len() > 0 { a.cover_xl@ } else { cover_fb },
        None => cover_fb,
    }
}

impl Track {
    /// The duration as `m:ss`.
    pub fn duration_fmt(&self) -> (r: String)
        ensures
            r@ == dec_rep(self.duration as int / 60).add(":"@).add(
                dec_rep2(self.duration as int % 60)),
    {
        let m = self.duration / 60;
        let s = self.duration % 60;
        let mut out = u64_to_string(m);
        out.append(":");
        let sec = u64_to_string2(s);
        out.append(sec.as_str());
        out
    }

    /// Convert one catalog track entry, with an album title and a cover to
    /// fall back on where the entry carries none.
    pub fn from_dz(dt: &DzTrack, album_fb: &str, cover_fb: &str) -> (r: Self)
        ensures
            r.title@ == dt.title@,
            r.artist@ == (match dt.artist {
                Some(a) => a.name@,
                None => Seq::<char>::empty(),
            }),
            r.album@ == (match dt.album {
                Some(a) => a.title@,
                None => album_fb@,
            }),
            r.duration == dt.duration,
            r.track_pos == dt.track_position,
            r.cover_url@ == dz_cover_choice(dt, cover_fb@),
            !r.is_album_track,
    {
        let cover = match &dt.album {
            Some(a) => {
                if !a.cover_xl.as_str().is_empty() {
                    a.cover_xl.clone()
                } else {
                    cover_fb.to_owned()
                }
            },
            None => cover_fb.to_owned(),
        };
        let artist = match &dt.artist {
            Some(a) => a.name.clone(),
            None => String::new(),
        };
        let album = match &dt.album {
            Some(a) => a.title.clone(),
            None => album_fb.to_owned(),
        };
        Track {
            title: dt.title.clone(),
            artist,
            album,
            duration: dt.duration,
            track_pos: dt.track_position,
            cover_url: cover,
            is_album_track: false,
        }
    }

    /// The search query handed to the fetcher: `<artist> - <title>`.
    pub fn yt_query(&self) -> (r: String)
        ensures
            r@ == self.artist@.add(" - "@).add(self.title@),
    {
        let mut out = self.artist.clone();
        out.append(" - ");
        out.append(self.title.as_str());
        out
    }
}

} // verus!
