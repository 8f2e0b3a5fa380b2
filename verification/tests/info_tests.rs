use std::io::Cursor;

use media_metadata::track::{resolve_file_info, resolve_track_metadata};

fn tiny_wav() -> Vec<u8> {
    let mut v: Vec<u8> = Vec::new();
    let data: [u8; 8] = [0; 8];
    v.extend_from_slice(b"RIFF");
    v.extend_from_slice(&(36u32 + data.len() as u32).to_le_bytes());
    v.extend_from_slice(b"WAVE");
    v.extend_from_slice(b"fmt ");
    v.extend_from_slice(&16u32.to_le_bytes());
    v.extend_from_slice(&1u16.to_le_bytes());
    v.extend_from_slice(&1u16.to_le_bytes());
    v.extend_from_slice(&44_100u32.to_le_bytes());
    v.extend_from_slice(&(44_100u32 * 2).to_le_bytes());
    v.extend_from_slice(&2u16.to_le_bytes());
    v.extend_from_slice(&16u16.to_le_bytes());
    v.extend_from_slice(b"data");
    v.extend_from_slice(&(data.len() as u32).to_le_bytes());
    v.extend_from_slice(&data);
    v
}

/// The same WAV with a `LIST`/`INFO` metadata chunk holding artist, title
/// and album entries.
fn wav_with_info() -> Vec<u8> {
    fn info_entry(out: &mut Vec<u8>, key: &[u8; 4], value: &[u8]) {
        out.extend_from_slice(key);
        out.extend_from_slice(&(value.len() as u32).to_le_bytes());
        out.extend_from_slice(value);
        if value.len() % 2 == 1 {
            out.push(0);
        }
    }
    let mut info: Vec<u8> = Vec::new();
    info.extend_from_slice(b"INFO");
    info_entry(&mut info, b"IART", b"Radiohead\0");
    info_entry(&mut info, b"INAM", b"Paranoid Android");
    info_entry(&mut info, b"IPRD", b"OK Computer\0");
    let mut v = tiny_wav();
    let mut chunk: Vec<u8> = Vec::new();
    chunk.extend_from_slice(b"LIST");
    chunk.extend_from_slice(&(info.len() as u32).to_le_bytes());
    chunk.extend_from_slice(&info);
    // Splice the LIST chunk in front of the data chunk and fix the RIFF size.
    let data_pos = v.windows(4).position(|w| w == b"data").unwrap();
    v.splice(data_pos..data_pos, chunk.iter().cloned());
    let riff_size = (v.len() - 8) as u32;
    v[4..8].copy_from_slice(&riff_size.to_le_bytes());
    v
}

#[test]
fn wav_info_tags_flow_through_the_read_path() {
    let bytes = wav_with_info();
    let size = bytes.len() as u64;
    let mss = symphonia::core::io::MediaSourceStream::new(
        Box::new(Cursor::new(bytes)),
        Default::default(),
    );
    let t = resolve_track_metadata("/music/ok.wav", false, size, Some(mss));
    assert_eq!(t.artist, Some("Radiohead".to_string()));
    assert_eq!(t.title, Some("Paranoid Android".to_string()));
    assert_eq!(t.album, Some("OK Computer".to_string()));
    assert_eq!(t.filename, "ok.wav");
}

#[test]
fn info_missing_file_is_refused() {
    let r = resolve_file_info("/no/such/file.wav", false, 0, Err("unused".to_string()));
    assert_eq!(r.unwrap_err(), "File not found");
}

#[test]
fn unopenable_file_reports_the_callers_error() {
    let r = resolve_file_info(
        "/locked/file.wav",
        true,
        0,
        Err("permission denied".to_string()),
    );
    assert_eq!(r.unwrap_err(), "permission denied");
}

#[test]
fn unparsable_container_fails_with_probe_error() {
    let bytes = b"this is not audio".to_vec();
    let mss = symphonia::core::io::MediaSourceStream::new(Box::new(Cursor::new(bytes)), Default::default());
    let r = resolve_file_info("/tmp/garbage.xyz", true, 17, Ok(mss));
    let msg = r.unwrap_err();
    assert!(msg.starts_with("Failed to probe: "), "message was: {}", msg);
}

#[test]
fn wav_info_reports_container_facts() {
    let bytes = tiny_wav();
    let size = bytes.len() as u64;
    let mss = symphonia::core::io::MediaSourceStream::new(Box::new(Cursor::new(bytes)), Default::default());
    let info = resolve_file_info("/music/silence.wav", true, size, Ok(mss)).unwrap();
    assert_eq!(info.path, "/music/silence.wav");
    assert_eq!(info.filename, "silence.wav");
    assert_eq!(info.size_bytes, size);
    assert_eq!(info.format, "WAV");
    assert_eq!(info.bitrate, None);
    assert_eq!(info.sample_rate, Some(44_100));
    assert_eq!(info.channels, Some(1));
    // Four 16-bit samples at 44.1 kHz round down to zero whole milliseconds.
    assert_eq!(info.duration_ms, 0);
    // No tags embedded: the detail view leaves the title absent.
    assert_eq!(info.title, None);
    assert_eq!(info.artist, None);
}
