use media_metadata::clean_metadata_string;

#[test]
fn clean_trims_whitespace() {
    assert_eq!(clean_metadata_string("  Pink Moon  "), "Pink Moon");
    assert_eq!(clean_metadata_string("\tNick Drake\n"), "Nick Drake");
}

#[test]
fn clean_removes_embedded_nulls() {
    assert_eq!(clean_metadata_string("Artist\0Name"), "ArtistName");
    assert_eq!(clean_metadata_string("\0\0abc\0"), "abc");
}

#[test]
fn clean_handles_null_shielded_whitespace() {
    // A NUL shields the space from the first trim; after the NUL is gone the
    // space must not survive at the edge.
    assert_eq!(clean_metadata_string("\0 \0 a"), "a");
    assert_eq!(clean_metadata_string("a \0"), "a");
}

#[test]
fn clean_is_total_on_edge_inputs() {
    assert_eq!(clean_metadata_string(""), "");
    assert_eq!(clean_metadata_string("\0"), "");
    assert_eq!(clean_metadata_string("   "), "");
    assert_eq!(clean_metadata_string("x"), "x");
}

#[test]
fn clean_is_idempotent_on_samples() {
    for s in [
        "  Pink Moon  ",
        "Artist\0Name",
        "\0 \0 a",
        "",
        " \u{00A0}mixed\u{3000} ",
        "inner  spaces stay",
    ] {
        let once = clean_metadata_string(s);
        let twice = clean_metadata_string(&once);
        assert_eq!(once, twice);
        assert!(!once.contains('\0'));
        assert_eq!(once.trim(), once);
    }
}

#[test]
fn clean_keeps_interior_whitespace() {
    assert_eq!(clean_metadata_string("  OK Computer  "), "OK Computer");
    assert_eq!(clean_metadata_string("a\0 b"), "a b");
}
