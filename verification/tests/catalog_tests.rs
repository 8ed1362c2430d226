use music_dl::album::{Album, DzAlbum, DzAlbumArtist, DzAlbumRes};
use music_dl::artist::{Artist, DzArtist, DzArtistRes};
use music_dl::deezer::{album_tracks_url, album_tracks_from_dz, albums_from_dz,
    artist_albums_url, artists_from_dz, enc, search_albums_url, search_artists_url,
    search_tracks_url, tracks_from_dz};
use music_dl::results::{combine_results, partition_selected, ResultItem, ResultRow};
use music_dl::track::{DzAlbumRef, DzTrack, DzTrackRes, Track};

fn dz_track(title: &str, dur: u64) -> DzTrack {
    DzTrack {
        title: title.to_string(),
        duration: dur,
        track_position: Some(3),
        artist: Some(music_dl::track::DzArtist { name: "Artist".to_string() }),
        album: None,
    }
}

#[test]
fn enc_keeps_safe_characters_and_plusses_spaces() {
    assert_eq!(enc("hello world"), "hello+world");
    assert_eq!(enc("a-b_c.d~e"), "a-b_c.d~e");
    assert_eq!(enc("AC3"), "AC3");
}

#[test]
fn enc_escapes_punctuation_as_uppercase_hex() {
    assert_eq!(enc("a&b"), "a%26b");
    assert_eq!(enc("50%"), "50%25");
    assert_eq!(enc("a/b"), "a%2Fb");
}

#[test]
fn enc_keeps_letters_beyond_ascii() {
    assert_eq!(enc("café"), "café");
}

#[test]
fn enc_escapes_symbols_beyond_one_byte() {
    assert_eq!(enc("a€"), "a%20AC");
}

#[test]
fn search_urls_embed_the_encoded_query() {
    assert_eq!(search_artists_url("a b"),
        "https://api.deezer.com/search/artist?q=a+b&limit=25");
    assert_eq!(search_albums_url("x&y"),
        "https://api.deezer.com/search/album?q=x%26y&limit=25");
    assert_eq!(search_tracks_url("q"),
        "https://api.deezer.com/search/track?q=q&limit=25");
}

#[test]
fn browse_urls_embed_the_identifier() {
    assert_eq!(artist_albums_url(42), "https://api.deezer.com/artist/42/albums?limit=100");
    assert_eq!(album_tracks_url(7), "https://api.deezer.com/album/7/tracks?limit=100");
}

#[test]
fn artists_and_albums_convert_field_for_field() {
    let ares = DzArtistRes {
        data: vec![DzArtist { id: 5, name: "N".to_string(), nb_album: 2 }],
    };
    let artists = artists_from_dz(&ares);
    assert_eq!(artists.len(), 1);
    assert_eq!(artists[0].id, 5);
    assert_eq!(artists[0].name, "N");
    assert_eq!(artists[0].nb_album, 2);

    let bres = DzAlbumRes {
        data: vec![DzAlbum {
            id: 9,
            title: "T".to_string(),
            nb_tracks: 12,
            cover_xl: "http://c".to_string(),
            artist: Some(DzAlbumArtist { name: "A".to_string() }),
        }],
    };
    let albums = albums_from_dz(&bres);
    assert_eq!(albums[0].id, 9);
    assert_eq!(albums[0].artist, "A");
    assert_eq!(albums[0].cover_url, "http://c");
}

#[test]
fn search_tracks_have_no_album_context() {
    let res = DzTrackRes { data: vec![dz_track("S", 200)] };
    let tracks = tracks_from_dz(&res);
    assert_eq!(tracks[0].title, "S");
    assert_eq!(tracks[0].artist, "Artist");
    assert_eq!(tracks[0].album, "");
    assert_eq!(tracks[0].cover_url, "");
    assert!(!tracks[0].is_album_track);
}

#[test]
fn album_tracks_inherit_the_album_title_and_cover() {
    let album = Album {
        id: 1,
        title: "Alb".to_string(),
        artist: "A".to_string(),
        cover_url: "http://cover".to_string(),
        nb_tracks: 2,
    };
    let res = DzTrackRes { data: vec![dz_track("S", 100)] };
    let tracks = album_tracks_from_dz(&album, &res);
    assert_eq!(tracks[0].album, "Alb");
    assert_eq!(tracks[0].cover_url, "http://cover");
    assert!(tracks[0].is_album_track);
}

#[test]
fn album_tracks_prefer_their_own_cover() {
    let album = Album {
        id: 1,
        title: "Alb".to_string(),
        artist: "A".to_string(),
        cover_url: "http://cover".to_string(),
        nb_tracks: 1,
    };
    let mut dt = dz_track("S", 100);
    dt.album = Some(DzAlbumRef {
        title: "Own".to_string(),
        cover_xl: "http://own".to_string(),
    });
    let res = DzTrackRes { data: vec![dt] };
    let tracks = album_tracks_from_dz(&album, &res);
    assert_eq!(tracks[0].album, "Own");
    assert_eq!(tracks[0].cover_url, "http://own");
}

#[test]
fn duration_formats_as_minutes_and_seconds() {
    let mut t = Track::default();
    t.duration = 185;
    assert_eq!(t.duration_fmt(), "3:05");
    t.duration = 59;
    assert_eq!(t.duration_fmt(), "0:59");
}

#[test]
fn yt_query_joins_artist_and_title() {
    let mut t = Track::default();
    t.artist = "Artist".to_string();
    t.title = "Song".to_string();
    assert_eq!(t.yt_query(), "Artist - Song");
}

fn albums(n: usize) -> Vec<Album> {
    (0..n)
        .map(|i| Album {
            id: i as u64,
            title: format!("A{i}"),
            artist: String::new(),
            cover_url: String::new(),
            nb_tracks: 0,
        })
        .collect()
}

fn artists(n: usize) -> Vec<Artist> {
    (0..n)
        .map(|i| Artist { id: i as u64, name: format!("R{i}"), nb_album: 0 })
        .collect()
}

#[test]
fn combine_caps_albums_at_ten_and_artists_at_five() {
    let items = combine_results(Some(albums(12)), Some(artists(7)), None).unwrap();
    let album_count = items.iter().filter(|i| matches!(i, ResultItem::Album(_))).count();
    let artist_count = items.iter().filter(|i| matches!(i, ResultItem::Artist(_))).count();
    assert_eq!(album_count, 10);
    assert_eq!(artist_count, 5);
    assert_eq!(items.len(), 15);
    assert!(matches!(&items[0], ResultItem::Album(a) if a.title == "A0"));
    assert!(matches!(&items[10], ResultItem::Artist(a) if a.name == "R0"));
}

#[test]
fn combine_of_nothing_is_the_no_results_error() {
    assert_eq!(combine_results(None, None, None).unwrap_err(), "no results");
    assert_eq!(combine_results(Some(Vec::new()), Some(Vec::new()), Some(Vec::new()))
        .unwrap_err(), "no results");
}

#[test]
fn partition_takes_only_ticked_tracks_and_albums() {
    let mut t = Track::default();
    t.title = "T".to_string();
    let rows = vec![
        ResultRow { item: ResultItem::Track(t.clone()), selected: true },
        ResultRow { item: ResultItem::Track(t.clone()), selected: false },
        ResultRow { item: ResultItem::Album(albums(1).pop().unwrap()), selected: true },
        ResultRow { item: ResultItem::Artist(artists(1).pop().unwrap()), selected: true },
        ResultRow { item: ResultItem::SpotifyLiked, selected: true },
    ];
    let (tracks, sel_albums) = partition_selected(&rows);
    assert_eq!(tracks.len(), 1);
    assert_eq!(sel_albums.len(), 1);
}

#[test]
fn toggle_flips_only_selectable_rows() {
    let mut row = ResultRow { item: ResultItem::SpotifyLiked, selected: false };
    row.toggle();
    assert!(!row.selected);
    let mut row = ResultRow { item: ResultItem::Album(albums(1).pop().unwrap()),
        selected: false };
    row.toggle();
    assert!(row.selected);
    row.toggle();
    assert!(!row.selected);
}
