use music_dl::config::{client_id_path, data_dir, dl_dir_fallback, normalize_client_id,
    spotify_tokens_path, ytdlp_bin, ytdlp_path};
use music_dl::setup::{asset_name, chk_update_decision, select_asset, Asset, Release};
use music_dl::spotify_api::{liked_from_res, playlist_tracks_from_res, playlists_from_res,
    playlist_tracks_url, playlists_url, liked_url, track_from_raw};
use music_dl::spotify_auth::{build_auth_url, extract_auth_code, gen_verifier, pkce_challenge};
use music_dl::spotify_types::{Image, PlaylistItem, PlaylistTracksRef, PlaylistTracksRes,
    PlaylistsRes, RawAlbum, RawArtist, RawPlaylist, RawTrack, SavedTrack, SavedTracksRes};

fn raw_track() -> RawTrack {
    RawTrack {
        name: "Song".to_string(),
        duration_ms: 215_500,
        track_number: Some(4),
        artists: vec![
            RawArtist { name: "First".to_string() },
            RawArtist { name: "Second".to_string() },
        ],
        album: Some(RawAlbum {
            name: "Alb".to_string(),
            images: vec![
                Image { url: "http://img/1".to_string() },
                Image { url: "http://img/2".to_string() },
            ],
        }),
    }
}

#[test]
fn service_tracks_convert_with_first_artist_and_image() {
    let t = track_from_raw(&raw_track());
    assert_eq!(t.title, "Song");
    assert_eq!(t.artist, "First");
    assert_eq!(t.album, "Alb");
    assert_eq!(t.duration, 215);
    assert_eq!(t.track_pos, Some(4));
    assert_eq!(t.cover_url, "http://img/1");
    assert!(!t.is_album_track);
}

#[test]
fn service_track_without_album_or_artists() {
    let mut raw = raw_track();
    raw.artists = Vec::new();
    raw.album = None;
    let t = track_from_raw(&raw);
    assert_eq!(t.artist, "");
    assert_eq!(t.album, "");
    assert_eq!(t.cover_url, "");
}

#[test]
fn playlists_convert_with_their_track_counts() {
    let res = PlaylistsRes {
        items: vec![RawPlaylist {
            id: "p1".to_string(),
            name: "Mix".to_string(),
            tracks: PlaylistTracksRef { total: 17 },
        }],
        next: None,
    };
    let ps = playlists_from_res(&res);
    assert_eq!(ps.len(), 1);
    assert_eq!(ps[0].id, "p1");
    assert_eq!(ps[0].name, "Mix");
    assert_eq!(ps[0].nb_tracks, 17);
}

#[test]
fn unresolvable_playlist_entries_are_skipped() {
    let res = PlaylistTracksRes {
        items: vec![
            PlaylistItem { track: None },
            PlaylistItem { track: Some(raw_track()) },
            PlaylistItem { track: None },
        ],
        next: None,
    };
    let tracks = playlist_tracks_from_res(&res);
    assert_eq!(tracks.len(), 1);
    assert_eq!(tracks[0].title, "Song");
}

#[test]
fn liked_tracks_convert_entry_for_entry() {
    let res = SavedTracksRes {
        items: vec![SavedTrack { track: raw_track() }],
        next: None,
    };
    let tracks = liked_from_res(&res);
    assert_eq!(tracks.len(), 1);
    assert_eq!(tracks[0].artist, "First");
}

#[test]
fn listing_urls_are_fixed() {
    assert_eq!(playlists_url(), "https://api.spotify.com/v1/me/playlists?limit=50");
    assert_eq!(playlist_tracks_url("abc"),
        "https://api.spotify.com/v1/playlists/abc/tracks?limit=50");
    assert_eq!(liked_url(), "https://api.spotify.com/v1/me/tracks?limit=50");
}

#[test]
fn verifier_has_the_right_length_and_alphabet() {
    let charset = "abcdefghijklmnopqrstuvwxyzABCDEFGHIJKLMNOPQRSTUVWXYZ0123456789-._~";
    for _ in 0..10 {
        let v = gen_verifier();
        assert_eq!(v.chars().count(), 64);
        assert!(v.chars().all(|c| charset.contains(c)));
    }
}

#[test]
fn challenge_matches_the_known_vector() {
    // SHA-256 of "test", base64url without padding.
    assert_eq!(pkce_challenge("test"), "n4bQgYhMfWWaL-qgxVrQFaO_TxsrC4Is0V1sFbDwCgg");
}

#[test]
fn auth_url_carries_client_challenge_and_scopes() {
    let url = build_auth_url("CID", "CHAL");
    assert_eq!(url,
        "https://accounts.spotify.com/authorize?client_id=CID&response_type=code\
         &redirect_uri=http://127.0.0.1:18492/callback&code_challenge=CHAL\
         &code_challenge_method=S256&scope=playlist-read-private \
         playlist-read-collaborative user-library-read");
}

#[test]
fn auth_code_is_read_from_the_callback_request() {
    let req = "GET /callback?code=abc123&state=x HTTP/1.1\r\nHost: localhost\r\n\r\n";
    assert_eq!(extract_auth_code(req).as_deref(), Some("abc123"));
}

#[test]
fn auth_code_is_found_after_other_parameters() {
    let req = "GET /callback?state=x&code=zz9 HTTP/1.1\r\n";
    assert_eq!(extract_auth_code(req).as_deref(), Some("zz9"));
}

#[test]
fn request_without_code_yields_nothing() {
    assert_eq!(extract_auth_code("GET /callback?state=x HTTP/1.1\r\n"), None);
    assert_eq!(extract_auth_code("GET /callback HTTP/1.1\r\n"), None);
    assert_eq!(extract_auth_code(""), None);
}

#[test]
fn paths_hang_off_the_data_directory() {
    let d = data_dir("/home/u/.local/share");
    assert_eq!(d, "/home/u/.local/share/music-downloader");
    assert_eq!(ytdlp_path(&d), "/home/u/.local/share/music-downloader/yt-dlp");
    assert_eq!(spotify_tokens_path(&d),
        "/home/u/.local/share/music-downloader/spotify_tokens.json");
    assert_eq!(client_id_path(&d),
        "/home/u/.local/share/music-downloader/spotify_client_id");
    assert_eq!(dl_dir_fallback("/home/u"), "/home/u/Music");
}

#[test]
fn managed_binary_is_preferred_when_present() {
    assert_eq!(ytdlp_bin("/data/yt-dlp", true), "/data/yt-dlp");
    assert_eq!(ytdlp_bin("/data/yt-dlp", false), "yt-dlp");
}

#[test]
fn stored_client_id_is_trimmed_and_empty_counts_as_absent() {
    assert_eq!(normalize_client_id(" abc \n").as_deref(), Some("abc"));
    assert_eq!(normalize_client_id("  \n"), None);
}

#[test]
fn the_platform_asset_is_selected_by_name() {
    let rel = Release {
        tag_name: "2024.01.01".to_string(),
        assets: vec![
            Asset {
                name: "yt-dlp.exe".to_string(),
                browser_download_url: "http://r/exe".to_string(),
            },
            Asset {
                name: "yt-dlp_linux".to_string(),
                browser_download_url: "http://r/linux".to_string(),
            },
        ],
    };
    assert_eq!(select_asset(&rel, &asset_name(false)).as_deref(), Some("http://r/linux"));
    assert_eq!(select_asset(&rel, &asset_name(true)).as_deref(), Some("http://r/exe"));
    assert_eq!(select_asset(&rel, "nope"), None);
}

#[test]
fn update_check_compares_trimmed_versions() {
    assert_eq!(chk_update_decision("2024.1\n", "2024.1"), Ok(None));
    assert_eq!(chk_update_decision("2024.1\n", "2024.2\n"),
        Ok(Some("2024.2".to_string())));
    assert_eq!(chk_update_decision(" \n", "2024.2"),
        Err("could not read local version".to_string()));
}
