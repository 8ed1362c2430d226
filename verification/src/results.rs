//! The search-result rows and the two decisions made over them: which
//! selected rows go into a download batch, and how the three searches'
//! answers combine into one result list.

use vstd::prelude::*;

use crate::album::Album;
use crate::artist::Artist;
use crate::spotify_types::Playlist;
use crate::track::Track;

verus! {

/// One entry of the result list.
#[derive(Debug)]
pub enum ResultItem {
    Artist(Artist),
    Album(Album),
    Track(Track),
    SpotifyPlaylist(Playlist),
    SpotifyLiked,
}

impl Clone for ResultItem {
    fn clone(&self) -> (r: Self)
        ensures
            r == *self,
    {
        match self {
            ResultItem::Artist(a) => ResultItem::Artist(a.clone()),
            ResultItem::Album(a) => ResultItem::Album(a.clone()),
            ResultItem::Track(t) => ResultItem::Track(t.clone()),
            ResultItem::SpotifyPlaylist(p) => ResultItem::SpotifyPlaylist(p.clone()),
            ResultItem::SpotifyLiked => ResultItem::SpotifyLiked,
        }
    }
}

/// One row of the result list: the entry and whether it is ticked.
#[derive(Debug)]
pub struct ResultRow {
    pub item: ResultItem,
    pub selected: bool,
}

impl ResultRow {
    /// Flip the tick of a row that can be ticked: albums and tracks can, the
    /// browse-only entries cannot.
    pub fn toggle(&mut self)
        ensures
            final(self).item == old(self).item,
            final(self).selected == (match old(self).item {
                ResultItem::Album(_) => !old(self).selected,
                ResultItem::Track(_) => !old(self).selected,
                _ => old(self).selected,
            }),
    {
        match &self.item {
            ResultItem::Album(_) => {
                self.selected = !self.selected;
            },
            ResultItem::Track(_) => {
                self.selected = !self.selected;
            },
            _ => {},
        }
    }
}

/// The tracks of the ticked rows, in order.
pub open spec fn selected_tracks(s: Seq<ResultRow>) -> Seq<Track>
    decreases s.len(),
{
    if s.len() == 0 {
        Seq::<Track>::empty()
    } else {
        selected_tracks(s.drop_last()).add(match s.last().item {
            ResultItem::Track(t) => if s.last().selected {
                seq![t]
            } else {
                Seq::<Track>::empty()
            },
            _ => Seq::<Track>::empty(),
        })
    }
}

/// The albums of the ticked rows, in order.
pub open spec fn selected_albums(s: Seq<ResultRow>) -> Seq<Album>
    decreases s.len(),
{
    if s.len() == 0 {
        Seq::<Album>::empty()
    } else {
        selected_albums(s.drop_last()).add(match s.last().item {
            ResultItem::Album(a) => if s.last().selected {
                seq![a]
            } else {
                Seq::<Album>::empty()
            },
            _ => Seq::<Album>::empty(),
        })
    }
}

/// Split the ticked rows of the result list into the tracks to download and
/// the albums whose track listings are still to be fetched.
#[verifier::loop_isolation(false)]
pub fn partition_selected(rows: &Vec<ResultRow>) -> (r: (Vec<Track>, Vec<Album>))
    ensures
        r.0@ == selected_tracks(rows@),
        r.1@ == selected_albums(rows@),
{
    let mut tracks: Vec<Track> = Vec::new();
    let mut albums: Vec<Album> = Vec::new();
    let n = rows.len();
    let mut i: usize = 0;
    while i < n
        invariant
            i <= n,
            tracks@ == selected_tracks(rows@.take(i as int)),
            albums@ == selected_albums(rows@.take(i as int)),
        decreases n - i,
    {
        proof {
            assert(rows@.take(i + 1).drop_last() =~= rows@.take(i as int));
            assert(rows@.take(i + 1).last() == rows@[i as int]);
        }
        if rows[i].selected {
            match &rows[i].item {
                ResultItem::Track(t) => {
                    tracks.push(t.clone());
                },
                ResultItem::Album(a) => {
                    albums.push(a.clone());
                },
                _ => {},
            }
        }
        i = i + 1;
    }
    proof {
        assert(rows@.take(n as int) =~= rows@);
    }
    (tracks, albums)
}

/// The album part of a combined result list: the first ten hits, where the
/// search ran and succeeded.
pub open spec fn combined_albums(albums: Option<Vec<Album>>) -> Seq<ResultItem> {
    match albums {
        Some(v) => v@.take(if v@.len() > 10 { 10int } else { v@.len() as int })
            .map_values(|a: Album| ResultItem::Album(a)),
        None => Seq::<ResultItem>::empty(),
    }
}

/// The artist part: the first five hits.
pub open spec fn combined_artists(artists: Option<Vec<Artist>>) -> Seq<ResultItem> {
    match artists {
        Some(v) => v@.take(if v@.len() > 5 { 5int } else { v@.len() as int })
            .map_values(|a: Artist| ResultItem::Artist(a)),
        None => Seq::<ResultItem>::empty(),
    }
}

/// The track part: every hit.
pub open spec fn combined_tracks(tracks: Option<Vec<Track>>) -> Seq<ResultItem> {
    match tracks {
        Some(v) => v@.map_values(|t: Track| ResultItem::Track(t)),
        None => Seq::<ResultItem>::empty(),
    }
}

/// Combine the answers of the searches that ran and succeeded into one
/// result list: up to ten albums, up to five artists, every track, in that
/// order. An empty combination is the `no results` error.
#[verifier::loop_isolation(false)]
#[verifier::rlimit(50)]
pub fn combine_results(albums: Option<Vec<Album>>, artists: Option<Vec<Artist>>,
    tracks: Option<Vec<Track>>) -> (r: Result<Vec<ResultItem>, String>)
    ensures
        ({
            let want = combined_albums(albums).add(combined_artists(artists)).add(
                combined_tracks(tracks));
            match r {
                Ok(items) => want.len() > 0 && items@ == want,
                Err(e) => want.len() == 0 && e@ == "no results"@,
            }
        }),
{
    let mut items: Vec<ResultItem> = Vec::new();
    match &albums {
        Some(v) => {
            let lim: usize = if v.len() > 10 { 10 } else { v.len() };
            let mut i: usize = 0;
            while i < lim
                invariant
                    i <= lim <= v@.len(),
                    lim == (if v@.len() > 10 { 10int } else { v@.len() as int }),
                    items@ == combined_albums(albums).take(i as int),
                decreases lim - i,
            {
                items.push(ResultItem::Album(v[i].clone()));
                proof {
                    assert(items@ =~= combined_albums(albums).take(i + 1));
                }
                i = i + 1;
            }
            proof {
                assert(combined_albums(albums).take(lim as int) =~= combined_albums(albums));
            }
        },
        None => {},
    }
    let ghost part1 = combined_albums(albums);
    assert(items@ == part1);
    match &artists {
        Some(v) => {
            let lim: usize = if v.len() > 5 { 5 } else { v.len() };
            let mut i: usize = 0;
            while i < lim
                invariant
                    i <= lim <= v@.len(),
                    lim == (if v@.len() > 5 { 5int } else { v@.len() as int }),
                    items@ == part1.add(combined_artists(artists).take(i as int)),
                decreases lim - i,
            {
                items.push(ResultItem::Artist(v[i].clone()));
                proof {
                    assert(items@ =~= part1.add(combined_artists(artists).take(i + 1)));
                }
                i = i + 1;
            }
            proof {
                assert(part1.add(combined_artists(artists).take(lim as int))
                    =~= part1.add(combined_artists(artists)));
            }
        },
        None => {
            proof {
                assert(part1.add(combined_artists(artists)) =~= part1);
            }
        },
    }
    let ghost part2 = part1.add(combined_artists(artists));
    assert(items@ == part2);
    match &tracks {
        Some(v) => {
            let n = v.len();
            let mut i: usize = 0;
            while i < n
                invariant
                    i <= n == v@.len(),
                    items@ == part2.add(combined_tracks(tracks).take(i as int)),
                decreases n - i,
            {
                items.push(ResultItem::Track(v[i].clone()));
                proof {
                    assert(items@ =~= part2.add(combined_tracks(tracks).take(i + 1)));
                }
                i = i + 1;
            }
            proof {
                assert(part2.add(combined_tracks(tracks).take(n as int))
                    =~= part2.add(combined_tracks(tracks)));
            }
        },
        None => {
            proof {
                assert(part2.add(combined_tracks(tracks)) =~= part2);
            }
        },
    }
    assert(items@ == part2.add(combined_tracks(tracks)));
    if items.len() == 0 {
        Err("no results".to_owned())
    } else {
        Ok(items)
    }
}

} // verus!
