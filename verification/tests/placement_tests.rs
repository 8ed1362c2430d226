use music_dl::placement::{cover_tmp_path, ends_with_mp3, placement_path, remux_args,
    tmp_tag_path, track_dir};
use music_dl::track::Track;

fn track(title: &str, artist: &str, album: &str, is_album: bool) -> Track {
    Track {
        title: title.to_string(),
        artist: artist.to_string(),
        album: album.to_string(),
        duration: 0,
        track_pos: None,
        cover_url: String::new(),
        is_album_track: is_album,
    }
}

#[test]
fn path_for_single_track() {
    let t = track("Song", "Artist", "", false);
    assert_eq!(placement_path("/music", &t), "/music/Artist - Song.mp3");
}

#[test]
fn path_for_album_member() {
    let t = track("C", "A", "B", true);
    assert_eq!(placement_path("/music", &t), "/music/A - B/A - C.mp3");
}

#[test]
fn album_flag_without_album_name_stays_flat() {
    let t = track("C", "A", "", true);
    assert_eq!(track_dir("/music", &t), "/music");
    let t2 = track("C", "", "B", true);
    assert_eq!(track_dir("/music", &t2), "/music");
}

#[test]
fn path_computation_is_idempotent() {
    let t = track("Song", "Artist", "Alb", true);
    let first = placement_path("/music", &t);
    let second = placement_path("/music", &t);
    assert_eq!(first, second);
}

#[test]
fn tmp_tag_path_is_a_sibling() {
    assert_eq!(tmp_tag_path("/music/Song.mp3"), "/music/Song.tmp.mp3");
}

#[test]
fn mp3_extension_detection() {
    assert!(ends_with_mp3("/a/b.mp3"));
    assert!(!ends_with_mp3("/a/b.mp4"));
    assert!(!ends_with_mp3("mp3"));
}

#[test]
fn cover_tmp_path_carries_pid_and_counter() {
    assert_eq!(cover_tmp_path("/tmp", 1234, 7), "/tmp/mdl_cover_1234_7.jpg");
}

#[test]
fn cover_tmp_paths_differ_per_counter() {
    assert_ne!(cover_tmp_path("/tmp", 1234, 1), cover_tmp_path("/tmp", 1234, 2));
}

#[test]
fn remux_args_with_cover_and_track_number() {
    let mut t = track("Song", "Artist", "Alb", false);
    t.track_pos = Some(7);
    let cover = "/tmp/c.jpg".to_string();
    let args = remux_args("/m/Song.mp3", Some(&cover), &t, "/m/Song.tmp.mp3");
    let want = vec![
        "-y", "-i", "/m/Song.mp3",
        "-i", "/tmp/c.jpg", "-map", "0:a", "-map", "1:0",
        "-c", "copy", "-id3v2_version", "3",
        "-metadata", "title=Song",
        "-metadata", "artist=Artist",
        "-metadata", "album=Alb",
        "-metadata", "track=7",
        "-metadata:s:v", "title=Album cover",
        "-metadata:s:v", "comment=Cover (front)",
        "/m/Song.tmp.mp3",
    ];
    assert_eq!(args, want);
}

#[test]
fn remux_args_without_cover_or_number() {
    let t = track("Song", "Artist", "", false);
    let args = remux_args("/m/Song.mp3", None, &t, "/m/Song.tmp.mp3");
    let want = vec![
        "-y", "-i", "/m/Song.mp3",
        "-map", "0:a",
        "-c", "copy", "-id3v2_version", "3",
        "-metadata", "title=Song",
        "-metadata", "artist=Artist",
        "-metadata", "album=",
        "/m/Song.tmp.mp3",
    ];
    assert_eq!(args, want);
}
