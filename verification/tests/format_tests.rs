use media_metadata::formats::{
    classify_read, classify_write, decide_gapless, duration_ms_of, TagFormat, WriteFormat,
    GAPLESS_SIZE_LIMIT_BYTES,
};

fn chars(s: &str) -> Vec<char> {
    s.chars().collect()
}

#[test]
fn read_classification_by_extension() {
    assert_eq!(classify_read(&chars("mp3")), TagFormat::Id3Like);
    assert_eq!(classify_read(&chars("m4a")), TagFormat::Mp4Like);
    assert_eq!(classify_read(&chars("mp4")), TagFormat::Mp4Like);
    assert_eq!(classify_read(&chars("aac")), TagFormat::Mp4Like);
    assert_eq!(classify_read(&chars("ogg")), TagFormat::Generic);
    assert_eq!(classify_read(&chars("flac")), TagFormat::Generic);
    assert_eq!(classify_read(&chars("")), TagFormat::Generic);
    assert_eq!(classify_read(&chars("mp3x")), TagFormat::Generic);
}

#[test]
fn write_classification_by_extension() {
    assert_eq!(classify_write(&chars("mp3")), WriteFormat::Id3);
    assert_eq!(classify_write(&chars("m4a")), WriteFormat::Mp4);
    assert_eq!(classify_write(&chars("flac")), WriteFormat::Tagged);
    assert_eq!(classify_write(&chars("wav")), WriteFormat::Tagged);
    assert_eq!(classify_write(&chars("ogg")), WriteFormat::Tagged);
    assert_eq!(classify_write(&chars("txt")), WriteFormat::Unsupported);
    assert_eq!(classify_write(&chars("")), WriteFormat::Unsupported);
}

#[test]
fn gapless_disabled_above_three_gib() {
    let limit = GAPLESS_SIZE_LIMIT_BYTES;
    assert_eq!(limit, 3 * 1024 * 1024 * 1024);
    assert!(!decide_gapless(true, limit + 1));
    assert!(!decide_gapless(true, u64::MAX));
}

#[test]
fn gapless_unchanged_within_limit() {
    let limit = GAPLESS_SIZE_LIMIT_BYTES;
    assert!(decide_gapless(true, limit));
    assert!(decide_gapless(true, 0));
    assert!(decide_gapless(true, 42));
    assert!(!decide_gapless(false, 0));
    assert!(!decide_gapless(false, limit + 1));
}

#[test]
fn duration_from_frames_and_rate() {
    assert_eq!(duration_ms_of(441_000, 44_100), 10_000);
    assert_eq!(duration_ms_of(44_100, 44_100), 1_000);
    assert_eq!(duration_ms_of(22_050, 44_100), 500);
    assert_eq!(duration_ms_of(0, 44_100), 0);
    assert_eq!(duration_ms_of(441_000, 0), 0);
    // Saturates instead of overflowing.
    assert_eq!(duration_ms_of(u64::MAX, 1), u64::MAX);
}
