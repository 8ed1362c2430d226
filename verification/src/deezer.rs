//! The catalog query side: URL encoding, the search and browse URLs, and the
//! conversion of whole catalog answers into the library's models. The HTTP
//! requests themselves and the JSON decoding stay with the caller; it hands
//! the decoded answers to the conversion functions here.

use vstd::prelude::*;
use vstd::string::{StrSliceExecFns, StringExecFns};

use crate::album::{Album, DzAlbum, DzAlbumRes};
use crate::artist::{Artist, DzArtistRes};
use crate::strutil::{hex_rep2, u32_to_hex2, u64_to_string};
use crate::track::{DzTrack, DzTrackRes, Track};

verus! {

/// What `char::is_alphanumeric` returns; a fixed function of the character
/// alone (the Unicode `Alphabetic` and `Number` categories).
pub uninterp spec fn char_is_alphanumeric(c: char) -> bool;

/// Relies on char::is_alphanumeric: a pure Unicode table lookup, the same
/// for the same character everywhere.
pub assume_specification[ char::is_alphanumeric ](c: char) -> (r: bool)
    ensures
        r == char_is_alphanumeric(c),
;

/// How one character is query-encoded: space becomes `+`, alphanumerics and
/// `-_.~` stay, everything else becomes `%` and the code point in upper-case
/// hexadecimal, at least two digits.
pub open spec fn enc_char(c: char) -> Seq<char> {
    if c == ' ' {
        seq!['+']
    } else if char_is_alphanumeric(c) || c == '-' || c == '_' || c == '.' || c == '~' {
        seq![c]
    } else {
        seq!['%'].add(hex_rep2(c as int))
    }
}

/// The query encoding of a string: each character's encoding, in order.
pub open spec fn enc_seq(s: Seq<char>) -> Seq<char>
    decreases s.len(),
{
    if s.len() == 0 {
        Seq::<char>::empty()
    } else {
        enc_seq(s.drop_last()).add(enc_char(s.last()))
    }
}

/// Query-encode a string for a catalog search URL.
#[verifier::loop_isolation(false)]
pub fn enc(s: &str) -> (r: String)
    ensures
        r@ == enc_seq(s@),
{
    let n = s.unicode_len();
    let mut out = String::new();
    let mut i: usize = 0;
    while i < n
        invariant
            i <= n,
            out@ == enc_seq(s@.take(i as int)),
        decreases n - i,
    {
        let c = s.get_char(i);
        proof {
            assert(s@.take(i + 1).drop_last() =~= s@.take(i as int));
            assert(s@.take(i + 1).last() == s@[i as int]);
        }
        if c == ' ' {
            proof {
                reveal_strlit("+");
            }
            out.append("+");
            assert("+"@ =~= seq!['+']);
        } else if c.is_alphanumeric() || c == '-' || c == '_' || c == '.' || c == '~' {
            let piece = s.substring_char(i, i + 1);
            assert(piece@ =~= seq![s@[i as int]]);
            out.append(piece);
        } else {
            proof {
                reveal_strlit("%");
            }
            out.append("%");
            let hex = u32_to_hex2(c as u32);
            out.append(hex.as_str());
            assert("%"@ =~= seq!['%']);
            assert(out@ =~= enc_seq(s@.take(i + 1)));
        }
        i = i + 1;
    }
    proof {
        assert(s@.take(n as int) =~= s@);
    }
    out
}

/// The artist search URL for a query.
pub fn search_artists_url(q: &str) -> (r: String)
    ensures
        r@ == "https://api.deezer.com/search/artist?q="@.add(enc_seq(q@)).add("&limit=25"@),
{
    let mut out = "https://api.deezer.com/search/artist?q=".to_owned();
    let e = enc(q);
    out.append(e.as_str());
    out.append("&limit=25");
    out
}

/// The album search URL for a query.
pub fn search_albums_url(q: &str) -> (r: String)
    ensures
        r@ == "https://api.deezer.com/search/album?q="@.add(enc_seq(q@)).add("&limit=25"@),
{
    let mut out = "https://api.deezer.com/search/album?q=".to_owned();
    let e = enc(q);
    out.append(e.as_str());
    out.append("&limit=25");
    out
}

/// The track search URL for a query.
pub fn search_tracks_url(q: &str) -> (r: String)
    ensures
        r@ == "https://api.deezer.com/search/track?q="@.add(enc_seq(q@)).add("&limit=25"@),
{
    let mut out = "https://api.deezer.com/search/track?q=".to_owned();
    let e = enc(q);
    out.append(e.as_str());
    out.append("&limit=25");
    out
}

/// The URL listing an artist's albums.
pub fn artist_albums_url(artist_id: u64) -> (r: String)
    ensures
        r@ == "https://api.deezer.com/artist/"@.add(
            crate::strutil::dec_rep(artist_id as int)).add("/albums?limit=100"@),
{
    let mut out = "https://api.deezer.com/artist/".to_owned();
    let id = u64_to_string(artist_id);
    out.append(id.as_str());
    out.append("/albums?limit=100");
    out
}

/// The URL listing an album's tracks.
pub fn album_tracks_url(album_id: u64) -> (r: String)
    ensures
        r@ == "https://api.deezer.com/album/"@.add(
            crate::strutil::dec_rep(album_id as int)).add("/tracks?limit=100"@),
{
    let mut out = "https://api.deezer.com/album/".to_owned();
    let id = u64_to_string(album_id);
    out.append(id.as_str());
    out.append("/tracks?limit=100");
    out
}

/// Convert an artist search answer, entry for entry.
#[verifier::loop_isolation(false)]
pub fn artists_from_dz(res: &DzArtistRes) -> (r: Vec<Artist>)
    ensures
        r@.len() == res.data@.len(),
        forall|i: int| 0 <= i < r@.len() ==> {
            let a = #[trigger] r@[i];
            a.id == res.data@[i].id
                && a.name@ == res.data@[i].name@
                && a.nb_album == res.data@[i].nb_album
        },
{
    let mut out: Vec<Artist> = Vec::new();
    let n = res.data.len();
    let mut i: usize = 0;
    while i < n
        invariant
            i <= n,
            out@.len() == i,
            forall|k: int| 0 <= k < i ==> {
                let a = #[trigger] out@[k];
                a.id == res.data@[k].id
                    && a.name@ == res.data@[k].name@
                    && a.nb_album == res.data@[k].nb_album
            },
        decreases n - i,
    {
        out.push(Artist::from_dz(&res.data[i]));
        i = i + 1;
    }
    out
}

/// Convert an album search answer, entry for entry.
#[verifier::loop_isolation(false)]
pub fn albums_from_dz(res: &DzAlbumRes) -> (r: Vec<Album>)
    ensures
        r@.len() == res.data@.len(),
        forall|i: int| 0 <= i < r@.len() ==> {
            let a = #[trigger] r@[i];
            &&& a.id == res.data@[i].id
            &&& a.title@ == res.data@[i].title@
            &&& a.artist@ == (match res.data@[i].artist {
                    Some(ar) => ar.name@,
                    None => Seq::<char>::empty(),
                })
            &&& a.cover_url@ == res.data@[i].cover_xl@
            &&& a.nb_tracks == res.data@[i].nb_tracks
        },
{
    let mut out: Vec<Album> = Vec::new();
    let n = res.data.len();
    let mut i: usize = 0;
    while i < n
        invariant
            i <= n,
            out@.len() == i,
            forall|k: int| 0 <= k < i ==> {
                let a = #[trigger] out@[k];
                &&& a.id == res.data@[k].id
                &&& a.title@ == res.data@[k].title@
                &&& a.artist@ == (match res.data@[k].artist {
                        Some(ar) => ar.name@,
                        None => Seq::<char>::empty(),
                    })
                &&& a.cover_url@ == res.data@[k].cover_xl@
                &&& a.nb_tracks == res.data@[k].nb_tracks
            },
        decreases n - i,
    {
        out.push(Album::from_dz(&res.data[i]));
        i = i + 1;
    }
    out
}

/// What one converted search track looks like.
pub open spec fn search_track_ok(t: Track, dt: DzTrack) -> bool {
    &&& t.title@ == dt.title@
    &&& t.artist@ == (match dt.artist {
            Some(a) => a.name@,
            None => Seq::<char>::empty(),
        })
    &&& t.album@ == (match dt.album {
            Some(a) => a.title@,
            None => Seq::<char>::empty(),
        })
    &&& t.duration == dt.duration
    &&& t.track_pos == dt.track_position
    &&& !t.is_album_track
}

/// Convert a track search answer, entry for entry; search results carry no
/// album context, so there are no fallbacks and no album membership.
#[verifier::loop_isolation(false)]
pub fn tracks_from_dz(res: &DzTrackRes) -> (r: Vec<Track>)
    ensures
        r@.len() == res.data@.len(),
        forall|i: int| 0 <= i < r@.len()
            ==> search_track_ok(#[trigger] r@[i], res.data@[i])
                && r@[i].cover_url@ == crate::track::dz_cover_choice(&res.data@[i],
                    Seq::<char>::empty()),
{
    let mut out: Vec<Track> = Vec::new();
    let n = res.data.len();
    let mut i: usize = 0;
    while i < n
        invariant
            i <= n,
            out@.len() == i,
            forall|k: int| 0 <= k < i
                ==> search_track_ok(#[trigger] out@[k], res.data@[k])
                    && out@[k].cover_url@ == crate::track::dz_cover_choice(&res.data@[k],
                        Seq::<char>::empty()),
        decreases n - i,
    {
        proof {
            reveal_strlit("");
            assert(""@ =~= Seq::<char>::empty());
        }
        out.push(Track::from_dz(&res.data[i], "", ""));
        i = i + 1;
    }
    out
}

/// What one converted album track looks like: the album's own title and
/// cover fill in where the entry carries none, and the track is marked an
/// album member for nested placement.
pub open spec fn album_track_ok(t: Track, dt: DzTrack, album: Album) -> bool {
    &&& t.title@ == dt.title@
    &&& t.artist@ == (match dt.artist {
            Some(a) => a.name@,
            None => Seq::<char>::empty(),
        })
    &&& t.album@ == (match dt.album {
            Some(a) => a.title@,
            None => album.title@,
        })
    &&& t.duration == dt.duration
    &&& t.track_pos == dt.track_position
    &&& t.cover_url@ == crate::track::dz_cover_choice(&dt, album.cover_url@)
    &&& t.is_album_track
}

/// Convert an album's track listing, entry for entry.
#[verifier::loop_isolation(false)]
pub fn album_tracks_from_dz(album: &Album, res: &DzTrackRes) -> (r: Vec<Track>)
    ensures
        r@.len() == res.data@.len(),
        forall|i: int| 0 <= i < r@.len()
            ==> album_track_ok(#[trigger] r@[i], res.data@[i], *album),
{
    let mut out: Vec<Track> = Vec::new();
    let n = res.data.len();
    let mut i: usize = 0;
    while i < n
        invariant
            i <= n,
            out@.len() == i,
            forall|k: int| 0 <= k < i
                ==> album_track_ok(#[trigger] out@[k], res.data@[k], *album),
        decreases n - i,
    {
        let mut t = Track::from_dz(&res.data[i], album.title.as_str(),
            album.cover_url.as_str());
        t.is_album_track = true;
        out.push(t);
        i = i + 1;
    }
    out
}

} // verus!
