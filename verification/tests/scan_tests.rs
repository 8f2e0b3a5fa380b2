use media_metadata::scan::{RawRevision, RawTag, ScanState, TagKind};

fn tag(kind: TagKind, value: &str) -> RawTag {
    RawTag { kind, value: value.to_string() }
}

#[test]
fn first_occurrence_wins_within_a_revision() {
    let rev = RawRevision {
        tags: vec![
            tag(TagKind::Artist, "First Artist"),
            tag(TagKind::Artist, "Second Artist"),
            tag(TagKind::Title, "Song"),
        ],
        visual: None,
    };
    let mut st = ScanState::new();
    st.apply_revision(&rev);
    assert_eq!(st.artist, Some("First Artist".to_string()));
    assert_eq!(st.title, Some("Song".to_string()));
    assert_eq!(st.album, None);
}

#[test]
fn values_are_cleaned_and_empty_means_absent() {
    let rev = RawRevision {
        tags: vec![
            tag(TagKind::Artist, "  \0 "),
            tag(TagKind::Artist, " Radiohead\0 "),
            tag(TagKind::Album, "\0\0"),
        ],
        visual: None,
    };
    let mut st = ScanState::new();
    st.apply_revision(&rev);
    // The first value cleans to nothing, so the second one fills the field.
    assert_eq!(st.artist, Some("Radiohead".to_string()));
    assert_eq!(st.album, None);
}

#[test]
fn later_revision_fills_only_missing_fields() {
    let mut st = ScanState::new();
    st.apply_revision(&RawRevision {
        tags: vec![tag(TagKind::Title, "Keep Me")],
        visual: None,
    });
    st.apply_revision(&RawRevision {
        tags: vec![tag(TagKind::Title, "Drop Me"), tag(TagKind::Album, "OK Computer")],
        visual: None,
    });
    assert_eq!(st.title, Some("Keep Me".to_string()));
    assert_eq!(st.album, Some("OK Computer".to_string()));
}

#[test]
fn first_picture_becomes_the_cover() {
    let mut st = ScanState::new();
    st.apply_revision(&RawRevision { tags: vec![], visual: None });
    st.apply_revision(&RawRevision { tags: vec![], visual: Some(vec![1, 2, 3]) });
    st.apply_revision(&RawRevision { tags: vec![], visual: Some(vec![9, 9, 9]) });
    assert_eq!(st.cover, Some(vec![1, 2, 3]));
}

#[test]
fn other_keys_are_ignored() {
    let mut st = ScanState::new();
    st.apply_revision(&RawRevision {
        tags: vec![tag(TagKind::Other, "whatever")],
        visual: None,
    });
    assert_eq!(st.artist, None);
    assert_eq!(st.title, None);
    assert_eq!(st.album, None);
    assert!(!st.tags_done());
    assert!(!st.complete());
}
