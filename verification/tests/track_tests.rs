use media_metadata::fields::{fill_missing, needs_generic_for_track, no_fields, RawMetadataFields};
use media_metadata::track::{assemble_track, encoded_cover};

fn fields(
    artist: Option<&str>,
    title: Option<&str>,
    album: Option<&str>,
    duration_ms: u64,
) -> RawMetadataFields {
    RawMetadataFields {
        artist: artist.map(|s| s.to_string()),
        title: title.map(|s| s.to_string()),
        album: album.map(|s| s.to_string()),
        duration_ms,
        cover_image: None,
    }
}

#[test]
fn specialized_reader_wins_when_complete() {
    let primary = fields(Some("A"), Some("T"), Some("B"), 1234);
    assert!(!needs_generic_for_track(&primary));
    let t = assemble_track("/music/song.mp3", primary, None);
    assert_eq!(t.artist, Some("A".to_string()));
    assert_eq!(t.title, Some("T".to_string()));
    assert_eq!(t.album, Some("B".to_string()));
    assert_eq!(t.duration_ms, 1234);
    assert_eq!(t.filename, "song.mp3");
    assert_eq!(t.path, "/music/song.mp3");
}

#[test]
fn generic_reader_fills_only_gaps() {
    let primary = fields(Some("Keep"), None, Some("Kept Album"), 0);
    assert!(needs_generic_for_track(&primary));
    let generic = fields(Some("Drop"), Some("Filled Title"), Some("Dropped"), 42_000);
    let merged = fill_missing(primary, generic);
    assert_eq!(merged.artist, Some("Keep".to_string()));
    assert_eq!(merged.title, Some("Filled Title".to_string()));
    assert_eq!(merged.album, Some("Kept Album".to_string()));
    assert_eq!(merged.duration_ms, 42_000);
}

#[test]
fn all_readers_empty_degrades_to_filename() {
    let t = assemble_track("/home/u/music/quiet song.mp3", no_fields(), Some(no_fields()));
    assert_eq!(t.artist, None);
    assert_eq!(t.album, None);
    assert_eq!(t.duration_ms, 0);
    assert_eq!(t.title, Some("quiet song".to_string()));
    assert_eq!(t.filename, "quiet song.mp3");
}

#[test]
fn unrecognized_extension_with_full_generic_metadata() {
    let generic = RawMetadataFields {
        artist: Some("Radiohead".to_string()),
        title: Some("Paranoid Android".to_string()),
        album: Some("OK Computer".to_string()),
        duration_ms: 6_200,
        cover_image: None,
    };
    let t = assemble_track("track.ogg", no_fields(), Some(generic));
    assert_eq!(t.artist, Some("Radiohead".to_string()));
    assert_eq!(t.title, Some("Paranoid Android".to_string()));
    assert_eq!(t.album, Some("OK Computer".to_string()));
    assert_eq!(t.duration_ms, 6_200);
    assert_eq!(t.filename, "track.ogg");
}

#[test]
fn empty_title_falls_back_to_filename() {
    let primary = fields(Some("A"), Some(""), Some("B"), 10);
    let t = assemble_track("dir/My Song.flac", primary, None);
    assert_eq!(t.title, Some("My Song".to_string()));
}

#[test]
fn suffix_strip_is_case_sensitive() {
    // The stored extension is lower-cased, so an upper-case suffix in the
    // file name does not match and the full name becomes the title.
    let t = assemble_track("dir/Track.MP3", no_fields(), None);
    assert_eq!(t.title, Some("Track.MP3".to_string()));
}

#[test]
fn degenerate_basename_gets_the_default_title() {
    // A path with no file name after its last separator leaves nothing to
    // synthesize a title from.
    let t = assemble_track("music/albums/", no_fields(), None);
    assert_eq!(t.title, Some("Unknown File".to_string()));
    let empty = assemble_track("", no_fields(), Some(no_fields()));
    assert_eq!(empty.title, Some("Unknown File".to_string()));
}

#[test]
fn hidden_file_has_no_extension_to_strip() {
    let t = assemble_track("/tmp/.hidden", no_fields(), None);
    assert_eq!(t.title, Some(".hidden".to_string()));
}

#[test]
fn cover_bytes_encode_to_base64() {
    let f = RawMetadataFields {
        artist: None,
        title: None,
        album: None,
        duration_ms: 0,
        cover_image: Some(b"Man".to_vec()),
    };
    assert_eq!(encoded_cover(&f), Some("TWFu".to_string()));
    let longer = RawMetadataFields { cover_image: Some(b"Ma".to_vec()), ..f };
    assert_eq!(encoded_cover(&longer), Some("TWE=".to_string()));
    let none = RawMetadataFields { cover_image: None, ..longer };
    assert_eq!(encoded_cover(&none), None);
}
