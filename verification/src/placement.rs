//! Deterministic file placement and the argument list of the tagging remux.
//!
//! Pure path computation: given a descriptor and a base directory the target
//! directory and file name are fixed, so callers and tests can predict the
//! exact output location. The directory creation, the remux process and the
//! final rename are the caller's I/O.

use vstd::prelude::*;
use vstd::string::{StrSliceExecFns, StringExecFns};

use crate::strutil::{dec_rep, u64_to_string};
use crate::track::Track;

verus! {

/// The directory an item is placed in: album members go to
/// `<base>/<artist> - <album>`, everything else stays in the base directory.
pub open spec fn track_dir_spec(base: Seq<char>, t: Track) -> Seq<char> {
    if t.is_album_track && t.album@.len() > 0 && t.artist@.len() > 0 {
        base.add("/"@).add(t.artist@).add(" - "@).add(t.album@)
    } else {
        base
    }
}

/// The final path of an item: `<dir>/<artist> - <title>.mp3`.
pub open spec fn placement_path_spec(base: Seq<char>, t: Track) -> Seq<char> {
    track_dir_spec(base, t).add("/"@).add(t.artist@).add(" - "@).add(t.title@).add(".mp3"@)
}

/// Compute the directory an item is placed in.
pub fn track_dir(base: &str, track: &Track) -> (r: String)
    ensures
        r@ == track_dir_spec(base@, *track),
{
    if track.is_album_track && !track.album.as_str().is_empty()
        && !track.artist.as_str().is_empty() {
        let mut out = base.to_owned();
        out.append("/");
        out.append(track.artist.as_str());
        out.append(" - ");
        out.append(track.album.as_str());
        out
    } else {
        base.to_owned()
    }
}

/// Compute the final path of an item under a base directory.
pub fn placement_path(base: &str, track: &Track) -> (r: String)
    ensures
        r@ == placement_path_spec(base@, *track),
{
    let mut out = track_dir(base, track);
    out.append("/");
    out.append(track.artist.as_str());
    out.append(" - ");
    out.append(track.title.as_str());
    out.append(".mp3");
    out
}

/// Computing the placement path twice for identical inputs gives identical
/// strings: the path depends on nothing but the base directory and the
/// descriptor's artist, title, album and album membership.
pub proof fn lemma_placement_path_idempotent(base: Seq<char>, t1: Track, t2: Track)
    requires
        t1.artist@ == t2.artist@,
        t1.title@ == t2.title@,
        t1.album@ == t2.album@,
        t1.is_album_track == t2.is_album_track,
    ensures
        placement_path_spec(base, t1) == placement_path_spec(base, t2),
{
}

/// The sibling file the tagging step writes to, so the fetched source is
/// never mutated in place: `<path without .mp3>.tmp.mp3`.
pub open spec fn tmp_tag_path_spec(src: Seq<char>) -> Seq<char> {
    src.take(src.len() - 4).add(".tmp.mp3"@)
}

/// `src` ends in `.mp3`.
pub open spec fn has_mp3_ext(src: Seq<char>) -> bool {
    src.len() >= 4 && src.skip(src.len() - 4) == ".mp3"@
}

/// Compute the temporary sibling of an `.mp3` file.
pub fn tmp_tag_path(src: &str) -> (r: String)
    requires
        has_mp3_ext(src@),
    ensures
        r@ == tmp_tag_path_spec(src@),
{
    let n = src.unicode_len();
    let stem = src.substring_char(0, n - 4);
    let mut out = stem.to_owned();
    out.append(".tmp.mp3");
    assert(out@ =~= tmp_tag_path_spec(src@));
    out
}

/// The uniquely named temporary file a fetched cover is written to, derived
/// from the process identity and a monotone counter so that concurrently
/// running tasks never collide: `<tmp>/mdl_cover_<pid>_<n>.jpg`.
pub open spec fn cover_tmp_path_spec(tmp_dir: Seq<char>, pid: u64, n: u64) -> Seq<char> {
    tmp_dir.add("/mdl_cover_"@).add(dec_rep(pid as int)).add("_"@).add(
        dec_rep(n as int)).add(".jpg"@)
}

/// Distinct counter values give distinct cover paths, so concurrently
/// running tasks never collide on their temporary cover files.
pub proof fn lemma_cover_tmp_path_injective(tmp_dir: Seq<char>, pid: u64, n1: u64, n2: u64)
    requires
        n1 != n2,
    ensures
        cover_tmp_path_spec(tmp_dir, pid, n1) != cover_tmp_path_spec(tmp_dir, pid, n2),
{
    crate::strutil::lemma_dec_rep_value(n1 as int);
    crate::strutil::lemma_dec_rep_value(n2 as int);
    let head = tmp_dir.add("/mdl_cover_"@).add(dec_rep(pid as int)).add("_"@);
    let d1 = dec_rep(n1 as int);
    let d2 = dec_rep(n2 as int);
    let s1 = cover_tmp_path_spec(tmp_dir, pid, n1);
    let s2 = cover_tmp_path_spec(tmp_dir, pid, n2);
    assert(s1 =~= head.add(d1).add(".jpg"@));
    assert(s2 =~= head.add(d2).add(".jpg"@));
    if s1 == s2 {
        assert(d1.len() == d2.len());
        assert(d1 =~= d2) by {
            assert(forall|k: int| 0 <= k < d1.len()
                ==> #[trigger] d1[k] == s1[head.len() + k] && d2[k] == s2[head.len() + k]);
        }
        assert(crate::progress::digits_val(d1) == crate::progress::digits_val(d2));
    }
}

/// Compute the temporary cover path for counter value `n`.
pub fn cover_tmp_path(tmp_dir: &str, pid: u64, n: u64) -> (r: String)
    ensures
        r@ == cover_tmp_path_spec(tmp_dir@, pid, n),
{
    let mut out = tmp_dir.to_owned();
    out.append("/mdl_cover_");
    let p = u64_to_string(pid);
    out.append(p.as_str());
    out.append("_");
    let c = u64_to_string(n);
    out.append(c.as_str());
    out.append(".jpg");
    out
}

/// The argument list of the tagging remux: copy-codec, the metadata fields,
/// and — when a cover was obtained — the attached image with its fixed
/// descriptive fields, writing to `tmp`.
pub open spec fn remux_args_spec(
    src: Seq<char>,
    cover: Option<Seq<char>>,
    t: Track,
    tmp: Seq<char>,
) -> Seq<Seq<char>> {
    let head = seq!["-y"@, "-i"@, src];
    let maps = match cover {
        Some(c) => seq!["-i"@, c, "-map"@, "0:a"@, "-map"@, "1:0"@],
        None => seq!["-map"@, "0:a"@],
    };
    let codec = seq!["-c"@, "copy"@, "-id3v2_version"@, "3"@];
    let meta = seq![
        "-metadata"@, "title="@.add(t.title@),
        "-metadata"@, "artist="@.add(t.artist@),
        "-metadata"@, "album="@.add(t.album@),
    ];
    let trackno = match t.track_pos {
        Some(p) => seq!["-metadata"@, "track="@.add(dec_rep(p as int))],
        None => Seq::<Seq<char>>::empty(),
    };
    let art = match cover {
        Some(_) => seq![
            "-metadata:s:v"@, "title=Album cover"@,
            "-metadata:s:v"@, "comment=Cover (front)"@,
        ],
        None => Seq::<Seq<char>>::empty(),
    };
    head.add(maps).add(codec).add(meta).add(trackno).add(art).add(seq![tmp])
}

fn push_pair(args: &mut Vec<String>, a: &str, b: String)
    ensures
        final(args).deep_view() =~= old(args).deep_view().push(a@).push(b@),
{
    let ghost before = args.deep_view();
    args.push(a.to_owned());
    args.push(b);
    assert(final(args).deep_view() =~= before.push(a@).push(b@));
}

/// Build the argument list of the tagging remux.
pub fn remux_args(src: &str, cover: Option<&String>, t: &Track, tmp: &str) -> (r: Vec<String>)
    ensures
        r.deep_view() == remux_args_spec(src@, match cover {
            Some(c) => Some(c@),
            None => None,
        }, *t, tmp@),
{
    let ghost cover_view: Option<Seq<char>> = match cover {
        Some(c) => Some(c@),
        None => None,
    };
    let mut args: Vec<String> = Vec::new();
    assert(args.deep_view() =~= Seq::<Seq<char>>::empty());
    push_pair(&mut args, "-y", "-i".to_owned());
    let ghost dv_head = args.deep_view();
    args.push(src.to_owned());
    assert(args.deep_view() =~= dv_head.push(src@));
    match cover {
        Some(c) => {
            push_pair(&mut args, "-i", (*c).clone());
            push_pair(&mut args, "-map", "0:a".to_owned());
            push_pair(&mut args, "-map", "1:0".to_owned());
        },
        None => {
            push_pair(&mut args, "-map", "0:a".to_owned());
        },
    }
    push_pair(&mut args, "-c", "copy".to_owned());
    push_pair(&mut args, "-id3v2_version", "3".to_owned());

    let mut title_arg = "title=".to_owned();
    title_arg.append(t.title.as_str());
    push_pair(&mut args, "-metadata", title_arg);
    let mut artist_arg = "artist=".to_owned();
    artist_arg.append(t.artist.as_str());
    push_pair(&mut args, "-metadata", artist_arg);
    let mut album_arg = "album=".to_owned();
    album_arg.append(t.album.as_str());
    push_pair(&mut args, "-metadata", album_arg);

    match t.track_pos {
        Some(p) => {
            let mut track_arg = "track=".to_owned();
            let num = u64_to_string(p as u64);
            track_arg.append(num.as_str());
            push_pair(&mut args, "-metadata", track_arg);
        },
        None => {},
    }
    if cover.is_some() {
        push_pair(&mut args, "-metadata:s:v", "title=Album cover".to_owned());
        push_pair(&mut args, "-metadata:s:v", "comment=Cover (front)".to_owned());
    }
    let ghost dv_tail = args.deep_view();
    args.push(tmp.to_owned());
    assert(args.deep_view() =~= dv_tail.push(tmp@));
    assert(args.deep_view() =~= remux_args_spec(src@, cover_view, *t, tmp@));
    args
}

/// Whether the string ends in `.mp3`.
pub fn ends_with_mp3(s: &str) -> (r: bool)
    ensures
        r == has_mp3_ext(s@),
{
    proof {
        reveal_strlit(".mp3");
    }
    let n = s.unicode_len();
    if n < 4 {
        return false;
    }
    let ok = s.get_char(n - 4) == '.' && s.get_char(n - 3) == 'm'
        && s.get_char(n - 2) == 'p' && s.get_char(n - 1) == '3';
    if ok {
        assert(s@.skip(n as int - 4) =~= ".mp3"@);
    } else {
        assert(s@.skip(n as int - 4) != ".mp3"@) by {
            if s@.skip(n as int - 4) == ".mp3"@ {
                assert(s@.skip(n as int - 4)[0] == s@[n as int - 4]);
                assert(s@.skip(n as int - 4)[1] == s@[n as int - 3]);
                assert(s@.skip(n as int - 4)[2] == s@[n as int - 2]);
                assert(s@.skip(n as int - 4)[3] == s@[n as int - 1]);
            }
        }
    }
    ok
}

} // verus!
