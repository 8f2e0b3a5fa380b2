//! The partial metadata record a reader produces, and the rules that merge
//! two such records: a field the primary reader filled is never overwritten,
//! the secondary reader only fills gaps.

use vstd::prelude::*;

verus! {

/// What one metadata reader recovered.  Every field is independently
/// optional; `duration_ms == 0` means the duration is unknown.
#[derive(Debug)]
pub struct RawMetadataFields {
    pub artist: Option<String>,
    pub title: Option<String>,
    pub album: Option<String>,
    /// Track duration in whole milliseconds; `0` when unknown.
    pub duration_ms: u64,
    /// The first embedded cover image, as raw bytes.
    pub cover_image: Option<Vec<u8>>,
}

/// The record of a reader that found nothing.
pub open spec fn empty_fields() -> RawMetadataFields {
    RawMetadataFields {
        artist: None,
        title: None,
        album: None,
        duration_ms: 0,
        cover_image: None,
    }
}

/// `primary` with every absent field filled from `secondary`; a present
/// field of `primary` always wins.
pub open spec fn fill_spec(p: RawMetadataFields, g: RawMetadataFields) -> RawMetadataFields {
    RawMetadataFields {
        artist: if p.artist is Some {
            p.artist
        } else {
            g.artist
        },
        title: if p.title is Some {
            p.title
        } else {
            g.title
        },
        album: if p.album is Some {
            p.album
        } else {
            g.album
        },
        duration_ms: if p.duration_ms != 0 {
            p.duration_ms
        } else {
            g.duration_ms
        },
        cover_image: if p.cover_image is Some {
            p.cover_image
        } else {
            g.cover_image
        },
    }
}

/// Whether the track-listing path must still consult the generic reader:
/// some of artist, title, album or duration is missing.
pub open spec fn track_needs_generic(f: RawMetadataFields) -> bool {
    f.artist is None || f.title is None || f.album is None || f.duration_ms == 0
}

/// Whether the detail-view path must still consult the generic reader:
/// some of artist, title, album or cover is missing.
pub open spec fn info_needs_generic(f: RawMetadataFields) -> bool {
    f.artist is None || f.title is None || f.album is None || f.cover_image is None
}

/// An empty record.
pub fn no_fields() -> (r: RawMetadataFields)
    ensures
        r == empty_fields(),
{
    RawMetadataFields { artist: None, title: None, album: None, duration_ms: 0, cover_image: None }
}

/// Merge: keep what `p` has, fill the rest from `g`.
pub fn fill_missing(p: RawMetadataFields, g: RawMetadataFields) -> (r: RawMetadataFields)
    ensures
        r == fill_spec(p, g),
{
    RawMetadataFields {
        artist: if p.artist.is_some() {
            p.artist
        } else {
            g.artist
        },
        title: if p.title.is_some() {
            p.title
        } else {
            g.title
        },
        album: if p.album.is_some() {
            p.album
        } else {
            g.album
        },
        duration_ms: if p.duration_ms != 0 {
            p.duration_ms
        } else {
            g.duration_ms
        },
        cover_image: if p.cover_image.is_some() {
            p.cover_image
        } else {
            g.cover_image
        },
    }
}

/// Whether the track-listing path still needs the generic reader.
pub fn needs_generic_for_track(f: &RawMetadataFields) -> (r: bool)
    ensures
        r == track_needs_generic(*f),
{
    f.artist.is_none() || f.title.is_none() || f.album.is_none() || f.duration_ms == 0
}

/// Whether the detail-view path still needs the generic reader.
pub fn needs_generic_for_info(f: &RawMetadataFields) -> (r: bool)
    ensures
        r == info_needs_generic(*f),
{
    f.artist.is_none() || f.title.is_none() || f.album.is_none() || f.cover_image.is_none()
}

/// A primary record with all four track facts present never leaves room for
/// the generic reader: it is not consulted, and merging could not have
/// changed those four facts anyway, whatever the generic reader said.
pub proof fn lemma_specialized_precedence(p: RawMetadataFields, g: RawMetadataFields)
    requires
        p.artist is Some,
        p.title is Some,
        p.album is Some,
        p.duration_ms != 0,
    ensures
        !track_needs_generic(p),
        fill_spec(p, g).artist == p.artist,
        fill_spec(p, g).title == p.title,
        fill_spec(p, g).album == p.album,
        fill_spec(p, g).duration_ms == p.duration_ms,
{
}

} // verus!
