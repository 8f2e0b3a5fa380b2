use std::io::Write;

use lofty::Accessor;
use lofty::TaggedFileExt;
use media_metadata::track::resolve_track_metadata;
use media_metadata::writer::update_metadata;

#[test]
fn missing_file_is_refused() {
    let r = update_metadata("/no/such/file.mp3", None, None, None, false);
    assert_eq!(r, Err("File not found".to_string()));
}

#[test]
fn unsupported_extension_names_it() {
    let r = update_metadata("/tmp/notes.txt", Some("A".to_string()), None, None, true);
    let msg = r.unwrap_err();
    assert!(msg.contains("txt"), "message was: {}", msg);
    assert_eq!(msg, "Metadata editing not supported for .txt files");
}

#[test]
fn unsupported_extension_is_lowercased_in_the_message() {
    let r = update_metadata("/tmp/NOTES.TXT", None, None, None, true);
    assert_eq!(r.unwrap_err(), "Metadata editing not supported for .txt files");
}

fn temp_with_suffix(suffix: &str, bytes: &[u8]) -> tempfile::NamedTempFile {
    let mut f = tempfile::Builder::new().suffix(suffix).tempfile().unwrap();
    f.write_all(bytes).unwrap();
    f.flush().unwrap();
    f
}

/// A minimal valid WAV file: 44.1 kHz, mono, 16-bit, four zero samples.
fn tiny_wav() -> Vec<u8> {
    let mut v: Vec<u8> = Vec::new();
    let data: [u8; 8] = [0; 8];
    v.extend_from_slice(b"RIFF");
    v.extend_from_slice(&(36u32 + data.len() as u32).to_le_bytes());
    v.extend_from_slice(b"WAVE");
    v.extend_from_slice(b"fmt ");
    v.extend_from_slice(&16u32.to_le_bytes());
    v.extend_from_slice(&1u16.to_le_bytes()); // PCM
    v.extend_from_slice(&1u16.to_le_bytes()); // mono
    v.extend_from_slice(&44_100u32.to_le_bytes());
    v.extend_from_slice(&(44_100u32 * 2).to_le_bytes());
    v.extend_from_slice(&2u16.to_le_bytes());
    v.extend_from_slice(&16u16.to_le_bytes());
    v.extend_from_slice(b"data");
    v.extend_from_slice(&(data.len() as u32).to_le_bytes());
    v.extend_from_slice(&data);
    v
}

#[test]
fn write_then_read_back_roundtrip_mp3() {
    let f = temp_with_suffix(".mp3", b"");
    let path = f.path().to_str().unwrap().to_string();
    let r = update_metadata(
        &path,
        Some("A".to_string()),
        Some("T".to_string()),
        Some("B".to_string()),
        true,
    );
    assert_eq!(r, Ok(()));
    let size = f.as_file().metadata().unwrap().len();
    let t = resolve_track_metadata(&path, false, size, None);
    assert_eq!(t.artist, Some("A".to_string()));
    assert_eq!(t.title, Some("T".to_string()));
    assert_eq!(t.album, Some("B".to_string()));
}

#[test]
fn roundtrip_normalizes_whitespace_and_nulls() {
    let f = temp_with_suffix(".mp3", b"");
    let path = f.path().to_str().unwrap().to_string();
    update_metadata(
        &path,
        Some("  A\0 ".to_string()),
        Some(" T ".to_string()),
        None,
        true,
    )
    .unwrap();
    let t = resolve_track_metadata(&path, false, 0, None);
    assert_eq!(t.artist, Some("A".to_string()));
    assert_eq!(t.title, Some("T".to_string()));
}

#[test]
fn unparsable_mp4_reports_a_framed_read_error() {
    let f = temp_with_suffix(".m4a", b"not an mp4 container");
    let path = f.path().to_str().unwrap().to_string();
    let msg = update_metadata(&path, Some("A".to_string()), None, None, true).unwrap_err();
    assert!(msg.starts_with("Failed to read MP4 tags: "), "message was: {}", msg);
}

#[test]
fn unparsable_ogg_reports_a_framed_read_error() {
    let f = temp_with_suffix(".ogg", b"not an ogg container");
    let path = f.path().to_str().unwrap().to_string();
    let msg = update_metadata(&path, Some("A".to_string()), None, None, true).unwrap_err();
    assert!(msg.starts_with("Failed to read tags: "), "message was: {}", msg);
}

fn stored_wav_tag(path: &str) -> (Option<String>, Option<String>, Option<String>) {
    let tagged = lofty::Probe::open(path).unwrap().read().unwrap();
    let tag = tagged.primary_tag().unwrap();
    (
        tag.artist().map(|s| s.to_string()),
        tag.title().map(|s| s.to_string()),
        tag.album().map(|s| s.to_string()),
    )
}

#[test]
fn all_none_write_is_a_successful_no_op() {
    let f = temp_with_suffix(".wav", &tiny_wav());
    let path = f.path().to_str().unwrap().to_string();
    update_metadata(&path, Some("Keep Me".to_string()), None, None, true).unwrap();
    // The no-op update must succeed and leave the stored value alone.
    let r = update_metadata(&path, None, None, None, true);
    assert_eq!(r, Ok(()));
    let (artist, _, _) = stored_wav_tag(&path);
    assert_eq!(artist, Some("Keep Me".to_string()));
}

#[test]
fn write_then_read_back_roundtrip_wav() {
    let f = temp_with_suffix(".wav", &tiny_wav());
    let path = f.path().to_str().unwrap().to_string();
    let r = update_metadata(
        &path,
        Some("A".to_string()),
        Some("T".to_string()),
        Some("B".to_string()),
        true,
    );
    assert_eq!(r, Ok(()));
    let (artist, title, album) = stored_wav_tag(&path);
    assert_eq!(artist, Some("A".to_string()));
    assert_eq!(title, Some("T".to_string()));
    assert_eq!(album, Some("B".to_string()));
}
