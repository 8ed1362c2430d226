//! Converting the streaming service's library answers into the library's
//! models, and the URLs of the listings. The authorized HTTP requests and the
//! pagination that follows each answer's `next` URL stay with the caller.

use vstd::prelude::*;
use vstd::string::StringExecFns;

use crate::spotify_types::{Playlist, PlaylistItem, PlaylistTracksRes, PlaylistsRes, RawTrack,
    SavedTracksRes};
use crate::track::Track;

verus! {

/// What one converted service track looks like: the first listed artist, the
/// album's name and first image where present, the duration in whole seconds.
pub open spec fn spotify_track_ok(t: Track, raw: RawTrack) -> bool {
    &&& t.title@ == raw.name@
    &&& t.artist@ == (if raw.artists@.len() > 0 {
            raw.artists@[0].name@
        } else {
            Seq::<char>::empty()
        })
    &&& t.album@ == (match raw.album {
            Some(a) => a.name@,
            None => Seq::<char>::empty(),
        })
    &&& t.duration == raw.duration_ms / 1000
    &&& t.track_pos == raw.track_number
    &&& t.cover_url@ == (match raw.album {
            Some(a) => if a.images@.len() > 0 { a.images@[0].url@ } else { Seq::<char>::empty() },
            None => Seq::<char>::empty(),
        })
    &&& !t.is_album_track
}

/// Convert one service track.
pub fn track_from_raw(raw: &RawTrack) -> (t: Track)
    ensures
        spotify_track_ok(t, *raw),
{
    let artist = if raw.artists.len() > 0 {
        raw.artists[0].name.clone()
    } else {
        String::new()
    };
    let album = match &raw.album {
        Some(a) => a.name.clone(),
        None => String::new(),
    };
    let cover = match &raw.album {
        Some(a) => {
            if a.images.len() > 0 {
                a.images[0].url.clone()
            } else {
                String::new()
            }
        },
        None => String::new(),
    };
    Track {
        title: raw.name.clone(),
        artist,
        album,
        duration: raw.duration_ms / 1000,
        track_pos: raw.track_number,
        cover_url: cover,
        is_album_track: false,
    }
}

/// Convert one page of the playlists listing, entry for entry.
#[verifier::loop_isolation(false)]
pub fn playlists_from_res(res: &PlaylistsRes) -> (r: Vec<Playlist>)
    ensures
        r@.len() == res.items@.len(),
        forall|i: int| 0 <= i < r@.len() ==> {
            let p = #[trigger] r@[i];
            p.id@ == res.items@[i].id@
                && p.name@ == res.items@[i].name@
                && p.nb_tracks == res.items@[i].tracks.total
        },
{
    let mut out: Vec<Playlist> = Vec::new();
    let n = res.items.len();
    let mut i: usize = 0;
    while i < n
        invariant
            i <= n,
            out@.len() == i,
            forall|k: int| 0 <= k < i ==> {
                let p = #[trigger] out@[k];
                p.id@ == res.items@[k].id@
                    && p.name@ == res.items@[k].name@
                    && p.nb_tracks == res.items@[k].tracks.total
            },
        decreases n - i,
    {
        out.push(Playlist {
            id: res.items[i].id.clone(),
            name: res.items[i].name.clone(),
            nb_tracks: res.items[i].tracks.total,
        });
        i = i + 1;
    }
    out
}

/// The tracks a page of playlist entries resolves to, in order: the entries
/// whose track is present.
pub open spec fn present_tracks(items: Seq<PlaylistItem>) -> Seq<RawTrack>
    decreases items.len(),
{
    if items.len() == 0 {
        Seq::<RawTrack>::empty()
    } else {
        present_tracks(items.drop_last()).add(match items.last().track {
            Some(t) => seq![t],
            None => Seq::<RawTrack>::empty(),
        })
    }
}

/// Convert one page of a playlist's tracks: entries without a resolvable
/// track are skipped, the rest converted in order.
#[verifier::loop_isolation(false)]
pub fn playlist_tracks_from_res(res: &PlaylistTracksRes) -> (r: Vec<Track>)
    ensures
        r@.len() == present_tracks(res.items@).len(),
        forall|i: int| 0 <= i < r@.len()
            ==> spotify_track_ok(#[trigger] r@[i], present_tracks(res.items@)[i]),
{
    let mut out: Vec<Track> = Vec::new();
    let n = res.items.len();
    let mut i: usize = 0;
    while i < n
        invariant
            i <= n,
            out@.len() == present_tracks(res.items@.take(i as int)).len(),
            forall|k: int| 0 <= k < out@.len()
                ==> spotify_track_ok(#[trigger] out@[k],
                    present_tracks(res.items@.take(i as int))[k]),
        decreases n - i,
    {
        proof {
            assert(res.items@.take(i + 1).drop_last() =~= res.items@.take(i as int));
            assert(res.items@.take(i + 1).last() == res.items@[i as int]);
        }
        match &res.items[i].track {
            Some(raw) => {
                out.push(track_from_raw(raw));
            },
            None => {},
        }
        i = i + 1;
    }
    proof {
        assert(res.items@.take(n as int) =~= res.items@);
    }
    out
}

/// Convert one page of the liked-tracks listing, entry for entry.
#[verifier::loop_isolation(false)]
pub fn liked_from_res(res: &SavedTracksRes) -> (r: Vec<Track>)
    ensures
        r@.len() == res.items@.len(),
        forall|i: int| 0 <= i < r@.len()
            ==> spotify_track_ok(#[trigger] r@[i], res.items@[i].track),
{
    let mut out: Vec<Track> = Vec::new();
    let n = res.items.len();
    let mut i: usize = 0;
    while i < n
        invariant
            i <= n,
            out@.len() == i,
            forall|k: int| 0 <= k < i
                ==> spotify_track_ok(#[trigger] out@[k], res.items@[k].track),
        decreases n - i,
    {
        out.push(track_from_raw(&res.items[i].track));
        i = i + 1;
    }
    out
}

/// The first page of the account's playlists.
pub fn playlists_url() -> (r: String)
    ensures
        r@ == "https://api.spotify.com/v1/me/playlists?limit=50"@,
{
    "https://api.spotify.com/v1/me/playlists?limit=50".to_owned()
}

/// The first page of one playlist's tracks.
pub fn playlist_tracks_url(id: &str) -> (r: String)
    ensures
        r@ == "https://api.spotify.com/v1/playlists/"@.add(id@).add("/tracks?limit=50"@),
{
    let mut out = "https://api.spotify.com/v1/playlists/".to_owned();
    out.append(id);
    out.append("/tracks?limit=50");
    out
}

/// The first page of the account's liked tracks.
pub fn liked_url() -> (r: String)
    ensures
        r@ == "https://api.spotify.com/v1/me/tracks?limit=50"@,
{
    "https://api.spotify.com/v1/me/tracks?limit=50".to_owned()
}

} // verus!
