//! Reconciliation: run the specialized reader a file's extension selects,
//! fill what is still missing from the generic container reader, and build
//! the track record (list view) or the file-info record (detail view).

use vstd::prelude::*;
use vstd::string::{StrSliceExecFns, StringExecFns};
use crate::extract::{duration_of_facts, extract_generic, fields_of_scan, scan_probe_result};
use crate::fields::{
    empty_fields, fill_spec, fill_missing, needs_generic_for_info, needs_generic_for_track,
    no_fields, RawMetadataFields,
};
use crate::formats::{classify_read, decide_gapless, TagFormat};
use crate::pathname::{
    basename_chars, basename_spec, ext_lower_chars, ext_lower_spec, resolve_title,
    resolve_title_spec, synthesized_title, title_from_filename, upper_chars, upper_seq,
};
use crate::probe::{probe_open, session_facts, META_BYTE_LIMIT};
use crate::tags::{base64_encode, id3_read_raw, mp4_read_raw, RawTagData};
use crate::text::{
    chars_string, clean_metadata_string, framed_with, lemma_prefix_differs, norm_spec, prefix_msg,
    str_chars,
};

verus! {

/// The lightweight record the track list shows.  `title` is always
/// populated: a real embedded title, or one synthesized from the file name.
#[derive(Debug)]
pub struct Track {
    pub path: String,
    pub filename: String,
    /// Duration in whole milliseconds; `0` means unknown.
    pub duration_ms: u64,
    pub artist: Option<String>,
    pub title: Option<String>,
    pub album: Option<String>,
}

/// The detail-view record: container and codec facts beside the tags.
#[derive(Debug)]
pub struct AudioFileInfo {
    pub path: String,
    pub filename: String,
    pub size_bytes: u64,
    /// Duration in whole milliseconds; `0` means unknown.
    pub duration_ms: u64,
    /// The upper-cased extension (ASCII case mapping).
    pub format: String,
    pub codec: String,
    /// Never computed here; always unknown.
    pub bitrate: Option<u32>,
    pub sample_rate: Option<u32>,
    pub channels: Option<u32>,
    pub bit_depth: Option<u32>,
    pub artist: Option<String>,
    pub title: Option<String>,
    pub album: Option<String>,
    /// The first embedded picture, base64-encoded.
    pub cover_image: Option<String>,
}

/// Convert a raw tag container into a reader record: clean every string,
/// default a missing duration to zero, keep the first picture.
pub fn fields_from_raw(raw: Option<RawTagData>) -> (r: RawMetadataFields)
    ensures
        raw is None ==> r == empty_fields(),
        raw matches Some(d) ==> {
            &&& match (r.artist, d.artist) {
                (Some(ra), Some(da)) => ra@ == norm_spec(da@),
                (None, None) => true,
                _ => false,
            }
            &&& match (r.title, d.title) {
                (Some(rt), Some(dt)) => rt@ == norm_spec(dt@),
                (None, None) => true,
                _ => false,
            }
            &&& match (r.album, d.album) {
                (Some(rb), Some(db)) => rb@ == norm_spec(db@),
                (None, None) => true,
                _ => false,
            }
            &&& r.duration_ms == match d.duration_ms {
                Some(ms) => ms,
                None => 0u64,
            }
            &&& r.cover_image == d.cover
        },
{
    match raw {
        None => no_fields(),
        Some(d) => RawMetadataFields {
            artist: match d.artist {
                Some(s) => Some(clean_metadata_string(s.as_str())),
                None => None,
            },
            title: match d.title {
                Some(s) => Some(clean_metadata_string(s.as_str())),
                None => None,
            },
            album: match d.album {
                Some(s) => Some(clean_metadata_string(s.as_str())),
                None => None,
            },
            duration_ms: match d.duration_ms {
                Some(ms) => ms,
                None => 0,
            },
            cover_image: d.cover,
        },
    }
}

/// The ID3-style reader: parse failure degrades to an empty record; every
/// string that survives is cleaned (though an embedded empty value stays).
pub fn try_id3_metadata(path: &str) -> (r: RawMetadataFields)
    ensures
        r.artist matches Some(a) ==> norm_spec(a@) == a@,
        r.title matches Some(t) ==> norm_spec(t@) == t@,
        r.album matches Some(b) ==> norm_spec(b@) == b@,
{
    let raw = id3_read_raw(path);
    let ghost graw = raw;
    let r = fields_from_raw(raw);
    proof {
        if graw is Some {
            let d = graw->Some_0;
            if d.artist is Some {
                crate::text::lemma_normalize_idempotent(d.artist->Some_0@);
            }
            if d.title is Some {
                crate::text::lemma_normalize_idempotent(d.title->Some_0@);
            }
            if d.album is Some {
                crate::text::lemma_normalize_idempotent(d.album->Some_0@);
            }
        }
    }
    r
}

/// The MP4-atom reader: parse failure degrades to an empty record; every
/// string that survives is cleaned (though an embedded empty value stays).
pub fn try_mp4_metadata(path: &str) -> (r: RawMetadataFields)
    ensures
        r.artist matches Some(a) ==> norm_spec(a@) == a@,
        r.title matches Some(t) ==> norm_spec(t@) == t@,
        r.album matches Some(b) ==> norm_spec(b@) == b@,
{
    let raw = mp4_read_raw(path);
    let ghost graw = raw;
    let r = fields_from_raw(raw);
    proof {
        if graw is Some {
            let d = graw->Some_0;
            if d.artist is Some {
                crate::text::lemma_normalize_idempotent(d.artist->Some_0@);
            }
            if d.title is Some {
                crate::text::lemma_normalize_idempotent(d.title->Some_0@);
            }
            if d.album is Some {
                crate::text::lemma_normalize_idempotent(d.album->Some_0@);
            }
        }
    }
    r
}

/// The record's cover image as callers receive it: base64 text, four
/// characters for every three bytes, absent when no picture was found.
pub fn encoded_cover(f: &RawMetadataFields) -> (r: Option<String>)
    ensures
        match (r, f.cover_image) {
            (Some(s), Some(b)) => s@ == crate::tags::base64_of(b@) && s@.len() == ((b@.len() + 2)
                / 3) * 4,
            (None, None) => true,
            _ => false,
        },
{
    match &f.cover_image {
        Some(bytes) => Some(base64_encode(bytes)),
        None => None,
    }
}

/// Build the track record from the primary reader's result and, when one
/// ran, the generic reader's: the primary wins field by field, and the title
/// falls back to the file name with its matched extension suffix stripped.
pub fn assemble_track(
    file_path: &str,
    primary: RawMetadataFields,
    generic: Option<RawMetadataFields>,
) -> (t: Track)
    ensures
        ({
            let merged = match generic {
                Some(g) => fill_spec(primary, g),
                None => primary,
            };
            let name = basename_spec(file_path@);
            let ext = ext_lower_spec(file_path@);
            &&& t.path@ == file_path@
            &&& t.filename@ == name
            &&& t.duration_ms == merged.duration_ms
            &&& t.artist == merged.artist
            &&& t.album == merged.album
            &&& t.title matches Some(ti) && ti@ == resolve_title_spec(
                match merged.title {
                    Some(x) => Some(x@),
                    None => None,
                },
                name,
                ext,
            ) && ti@.len() > 0
        }),
{
    let pv = str_chars(file_path);
    let name = basename_chars(&pv);
    let ext = ext_lower_chars(&name);
    let merged = match generic {
        Some(g) => fill_missing(primary, g),
        None => primary,
    };
    let RawMetadataFields { artist, title, album, duration_ms, cover_image: _ } = merged;
    let final_title = resolve_title(title, &name, &ext);
    Track {
        path: file_path.to_owned(),
        filename: chars_string(&name),
        duration_ms,
        artist,
        title: Some(final_title),
        album,
    }
}

/// Resolve the list-view metadata of one file.
///
/// The caller supplies the plain facts only it can know: the file's size and
/// an opened media source for the generic reader (`None` when the file could
/// not be opened).  The extension picks a specialized reader; the generic
/// reader runs only when a fact is still missing, with the deep gapless scan
/// suppressed for oversized files; the title falls back to the file name.
/// Every failure degrades to absent fields — this operation cannot fail.
pub fn resolve_track_metadata(
    file_path: &str,
    enable_gapless: bool,
    file_size_bytes: u64,
    source: Option<symphonia::core::io::MediaSourceStream>,
) -> (t: Track)
    ensures
        t.path@ == file_path@,
        t.filename@ == basename_spec(file_path@),
        t.title matches Some(ti) && ti@.len() > 0,
        t.artist matches Some(a) ==> norm_spec(a@) == a@,
        t.album matches Some(b) ==> norm_spec(b@) == b@,
{
    let pv = str_chars(file_path);
    let name = basename_chars(&pv);
    let ext = ext_lower_chars(&name);
    let primary = match classify_read(&ext) {
        TagFormat::Id3Like => try_id3_metadata(file_path),
        TagFormat::Mp4Like => try_mp4_metadata(file_path),
        TagFormat::Generic => no_fields(),
    };
    if needs_generic_for_track(&primary) {
        let effective_gapless = decide_gapless(enable_gapless, file_size_bytes);
        let ext_string = chars_string(&ext);
        let g = match source {
            Some(src) => extract_generic(src, ext_string.as_str(), effective_gapless),
            None => no_fields(),
        };
        assemble_track(file_path, primary, Some(g))
    } else {
        assemble_track(file_path, primary, None)
    }
}

/// Resolve the detail-view metadata of one file.
///
/// Fails when the file does not exist, when it could not be opened, or when
/// no container parses — and only then: with the file present and opened,
/// any failure is the prober's own error behind its fixed frame, never the
/// missing-file refusal.  Unlike the list view, the title is left absent
/// when no reader recovers one.  The bitrate is never computed.
pub fn resolve_file_info(
    file_path: &str,
    file_exists: bool,
    file_size_bytes: u64,
    source: Result<symphonia::core::io::MediaSourceStream, String>,
) -> (r: Result<AudioFileInfo, String>)
    ensures
        !file_exists ==> (r matches Err(m) && m@ == "File not found"@),
        (file_exists && source is Err) ==> (r matches Err(m) && m@ == source->Err_0@),
        (file_exists && source is Ok) ==> (r is Ok || (r matches Err(m) && framed_with(
            "Failed to probe: "@,
            m@,
        ))),
        (r is Err && r->Err_0@ == "File not found"@) ==> (!file_exists || source is Err),
        r matches Ok(info) ==> {
            &&& file_exists
            &&& info.path@ == file_path@
            &&& info.filename@ == basename_spec(file_path@)
            &&& info.size_bytes == file_size_bytes
            &&& info.bitrate is None
            &&& info.format@ == upper_seq(ext_lower_spec(file_path@))
            &&& info.artist matches Some(a) ==> norm_spec(a@) == a@
            &&& info.title matches Some(t) ==> norm_spec(t@) == t@
            &&& info.album matches Some(b) ==> norm_spec(b@) == b@
        },
{
    if !file_exists {
        return Err(String::from_str("File not found"));
    }
    let pv = str_chars(file_path);
    let name = basename_chars(&pv);
    let ext = ext_lower_chars(&name);
    let src = match source {
        Ok(s) => s,
        Err(m) => return Err(m),
    };
    let ext_string = chars_string(&ext);
    let mut session = match probe_open(src, ext_string.as_str(), false, META_BYTE_LIMIT) {
        Ok(s) => s,
        Err(detail) => {
            let ghost d = detail@;
            let msg = prefix_msg("Failed to probe: ", detail);
            proof {
                reveal_strlit("Failed to probe: ");
                reveal_strlit("File not found");
                assert(framed_with("Failed to probe: "@, msg@)) by {
                    assert(msg@ == "Failed to probe: "@ + d);
                }
                assert("File not found"@[1] == 'i');
                lemma_prefix_differs("Failed to probe: "@, d, "File not found"@, 1);
            }
            return Err(msg);
        },
    };
    let facts = session_facts(&session);
    let duration_ms = duration_of_facts(&facts);
    let (codec, sample_rate, channels, bit_depth) = match facts {
        Some(f) => (f.codec, f.sample_rate, f.channels, f.bits_per_sample),
        None => (String::from_str("Unknown"), None, None, None),
    };
    let scanned = fields_of_scan(scan_probe_result(&mut session), duration_ms);
    let merged = match classify_read(&ext) {
        TagFormat::Id3Like => {
            let primary = try_id3_metadata(file_path);
            if needs_generic_for_info(&primary) {
                fill_missing(primary, scanned)
            } else {
                primary
            }
        },
        TagFormat::Mp4Like => {
            let primary = try_mp4_metadata(file_path);
            if needs_generic_for_info(&primary) {
                fill_missing(primary, scanned)
            } else {
                primary
            }
        },
        TagFormat::Generic => scanned,
    };
    let cover_image = encoded_cover(&merged);
    Ok(
        AudioFileInfo {
            path: file_path.to_owned(),
            filename: chars_string(&name),
            size_bytes: file_size_bytes,
            duration_ms,
            format: chars_string(&upper_chars(&ext)),
            codec,
            bitrate: None,
            sample_rate,
            channels,
            bit_depth,
            artist: merged.artist,
            title: merged.title,
            album: merged.album,
            cover_image,
        },
    )
}

/// When every reader came back empty, the resolved track degrades to the
/// bare file name: no artist, no album, zero duration, and a title equal to
/// the file name with its matched extension suffix stripped — or the default
/// display name when even that is empty.
pub proof fn lemma_nothing_found(path: Seq<char>)
    ensures
        ({
            let merged = fill_spec(empty_fields(), empty_fields());
            let name = basename_spec(path);
            let ext = ext_lower_spec(path);
            &&& merged.artist is None
            &&& merged.album is None
            &&& merged.duration_ms == 0
            &&& resolve_title_spec(
                match merged.title {
                    Some(x) => Some(x@),
                    None => None,
                },
                name,
                ext,
            ) == synthesized_title(name, ext)
            &&& title_from_filename(name, ext).len() > 0 ==> synthesized_title(name, ext)
                == title_from_filename(name, ext)
        }),
{
}

} // verus!
