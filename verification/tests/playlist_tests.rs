use media_metadata::playlist::{
    load_check, playlist_file_name, rename_check, renamed, summary_of, Playlist,
};
use media_metadata::track::Track;

fn track(title: &str) -> Track {
    Track {
        path: format!("/music/{}.mp3", title),
        filename: format!("{}.mp3", title),
        duration_ms: 1000,
        artist: None,
        title: Some(title.to_string()),
        album: None,
    }
}

#[test]
fn rename_collision_is_refused() {
    // Both "Chill" and "Workout" are stored; renaming one onto the other
    // must fail and change nothing (the caller only acts on Ok).
    let r = rename_check(true, true);
    let msg = r.unwrap_err();
    assert!(msg.contains("already exists"), "message was: {}", msg);
    assert_eq!(msg, "Playlist with new name already exists");
}

#[test]
fn rename_of_missing_playlist_is_refused() {
    assert_eq!(rename_check(false, false), Err("Playlist not found".to_string()));
    assert_eq!(rename_check(false, true), Err("Playlist not found".to_string()));
}

#[test]
fn rename_to_free_name_goes_ahead() {
    assert_eq!(rename_check(true, false), Ok(()));
}

#[test]
fn load_of_missing_playlist_is_refused() {
    assert_eq!(load_check(false), Err("Playlist not found".to_string()));
    assert_eq!(load_check(true), Ok(()));
}

#[test]
fn renamed_playlist_keeps_tracks_and_cover() {
    let p = Playlist {
        name: "Chill".to_string(),
        tracks: vec![track("one"), track("two")],
        cover_image: Some("img".to_string()),
    };
    let r = renamed(p, "Evening".to_string());
    assert_eq!(r.name, "Evening");
    assert_eq!(r.tracks.len(), 2);
    assert_eq!(r.tracks[0].title, Some("one".to_string()));
    assert_eq!(r.cover_image, Some("img".to_string()));
}

#[test]
fn summary_reports_name_count_and_cover() {
    let p = Playlist {
        name: "Workout".to_string(),
        tracks: vec![track("a"), track("b"), track("c")],
        cover_image: None,
    };
    let s = summary_of(&p);
    assert_eq!(s.name, "Workout");
    assert_eq!(s.track_count, 3);
    assert_eq!(s.cover_image, None);
}

#[test]
fn playlist_files_are_named_after_the_playlist() {
    assert_eq!(playlist_file_name("Chill"), "Chill.json");
    assert_eq!(playlist_file_name(""), ".json");
}
