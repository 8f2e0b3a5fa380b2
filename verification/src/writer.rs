//! The metadata writer dispatcher: route an update to the writer the file's
//! extension selects, touch only the fields the request carries, and persist
//! in place.
//!
//! The contract pins every message the dispatcher itself decides — the
//! missing-file refusal and the unsupported-extension refusal arise exactly
//! on their inputs — and pins the shape of every other failure: a supported
//! branch either succeeds or returns the tag library's own error behind that
//! branch's fixed frame, never one of the refusal messages.

use vstd::prelude::*;
use vstd::string::StringExecFns;
use crate::formats::{classify_write, classify_write_spec, WriteFormat};
use crate::pathname::{basename_chars, ext_lower_chars, ext_lower_spec};
use crate::tags::{
    id3_load_or_new, id3_set_album, id3_set_artist, id3_set_title, id3_write, lofty_has_primary,
    lofty_insert_primary, lofty_open, lofty_save_primary, lofty_set_album, lofty_set_artist,
    lofty_set_title, mp4_load, mp4_set_album, mp4_set_artist, mp4_set_title, mp4_write,
};
use crate::text::{chars_string, framed_with, lemma_prefix_differs, prefix_msg, str_chars};

verus! {

/// The message an unsupported extension is refused with.
pub open spec fn unsupported_msg_spec(ext: Seq<char>) -> Seq<char> {
    "Metadata editing not supported for ."@ + ext + " files"@
}

/// An error of the ID3 branch: the library's write failure behind its frame.
pub open spec fn id3_branch_error(m: Seq<char>) -> bool {
    framed_with("Failed to write ID3 tags: "@, m)
}

/// An error of the MP4 branch: the library's read or write failure behind
/// its frame.
pub open spec fn mp4_branch_error(m: Seq<char>) -> bool {
    framed_with("Failed to read MP4 tags: "@, m) || framed_with("Failed to write MP4 tags: "@, m)
}

/// An error of the tagged-file branch: the library's open, read or save
/// failure behind its frame.
pub open spec fn tagged_branch_error(m: Seq<char>) -> bool {
    framed_with("Failed to open file: "@, m) || framed_with("Failed to read tags: "@, m)
        || framed_with("Failed to save tags: "@, m)
}

fn unsupported_msg(ext: &Vec<char>) -> (r: String)
    ensures
        r@ == unsupported_msg_spec(ext@),
{
    let head = String::from_str("Metadata editing not supported for .");
    let mid = head.concat(chars_string(ext).as_str());
    mid.concat(" files")
}

/// A message behind a frame that starts with `Fa` is neither of the
/// dispatcher's own refusal messages.
proof fn lemma_framed_error_shape(prefix: Seq<char>, d: Seq<char>, ext: Seq<char>)
    requires
        prefix.len() >= 2,
        prefix[0] == 'F',
        prefix[1] == 'a',
    ensures
        framed_with(prefix, prefix + d),
        prefix + d != "File not found"@,
        prefix + d != unsupported_msg_spec(ext),
{
    reveal_strlit("File not found");
    reveal_strlit("Metadata editing not supported for .");
    assert(framed_with(prefix, prefix + d)) by {
        assert(prefix + d == prefix + d);
    }
    assert("File not found"@[1] == 'i');
    lemma_prefix_differs(prefix, d, "File not found"@, 1);
    assert(unsupported_msg_spec(ext)[0] == 'M');
    lemma_prefix_differs(prefix, d, unsupported_msg_spec(ext), 0);
}

/// The unsupported-extension refusal is not the missing-file refusal.
proof fn lemma_refusals_differ(ext: Seq<char>)
    ensures
        unsupported_msg_spec(ext) != "File not found"@,
{
    reveal_strlit("File not found");
    reveal_strlit("Metadata editing not supported for .");
    let tail = ext + " files"@;
    assert(unsupported_msg_spec(ext) == "Metadata editing not supported for ."@ + tail) by {
        assert(("Metadata editing not supported for ."@ + ext) + " files"@
            =~= "Metadata editing not supported for ."@ + (ext + " files"@));
    }
    assert("File not found"@[0] == 'F');
    lemma_prefix_differs("Metadata editing not supported for ."@, tail, "File not found"@, 0);
}

/// Write the provided fields into the file's tag container.
///
/// The caller supplies whether the file exists; a missing file is refused.
/// The extension picks the writer: the ID3 family creates a tag container
/// when none parses; the MP4 family requires one to parse; the tagged-file
/// family inserts an empty primary tag block when the file has none; every
/// other extension is refused with a message naming it.  Fields absent from
/// the request leave the stored values untouched, and a request with no
/// fields at all re-saves the container unchanged.
pub fn update_metadata(
    file_path: &str,
    artist: Option<String>,
    title: Option<String>,
    album: Option<String>,
    file_exists: bool,
) -> (r: Result<(), String>)
    ensures
        !file_exists ==> (r matches Err(m) && m@ == "File not found"@),
        (file_exists && classify_write_spec(ext_lower_spec(file_path@))
            == WriteFormat::Unsupported) ==> (r matches Err(m) && m@ == unsupported_msg_spec(
            ext_lower_spec(file_path@),
        )),
        (file_exists && classify_write_spec(ext_lower_spec(file_path@)) == WriteFormat::Id3) ==> (r
            is Ok || (r matches Err(m) && id3_branch_error(m@))),
        (file_exists && classify_write_spec(ext_lower_spec(file_path@)) == WriteFormat::Mp4) ==> (r
            is Ok || (r matches Err(m) && mp4_branch_error(m@))),
        (file_exists && classify_write_spec(ext_lower_spec(file_path@)) == WriteFormat::Tagged)
            ==> (r is Ok || (r matches Err(m) && tagged_branch_error(m@))),
        (r is Err && r->Err_0@ == "File not found"@) ==> !file_exists,
        (file_exists && r is Err && r->Err_0@ == unsupported_msg_spec(ext_lower_spec(file_path@)))
            ==> classify_write_spec(ext_lower_spec(file_path@)) == WriteFormat::Unsupported,
{
    if !file_exists {
        return Err(String::from_str("File not found"));
    }
    let pv = str_chars(file_path);
    let name = basename_chars(&pv);
    let ext = ext_lower_chars(&name);
    let ghost gext = ext_lower_spec(file_path@);
    match classify_write(&ext) {
        WriteFormat::Id3 => {
            let mut tag = id3_load_or_new(file_path);
            match &artist {
                Some(a) => id3_set_artist(&mut tag, a.as_str()),
                None => {},
            }
            match &title {
                Some(t) => id3_set_title(&mut tag, t.as_str()),
                None => {},
            }
            match &album {
                Some(b) => id3_set_album(&mut tag, b.as_str()),
                None => {},
            }
            match id3_write(&tag, file_path) {
                Ok(()) => Ok(()),
                Err(detail) => {
                    let ghost d = detail@;
                    let msg = prefix_msg("Failed to write ID3 tags: ", detail);
                    proof {
                        reveal_strlit("Failed to write ID3 tags: ");
                        lemma_framed_error_shape("Failed to write ID3 tags: "@, d, gext);
                    }
                    Err(msg)
                },
            }
        },
        WriteFormat::Mp4 => {
            let mut tag = match mp4_load(file_path) {
                Ok(t) => t,
                Err(detail) => {
                    let ghost d = detail@;
                    let msg = prefix_msg("Failed to read MP4 tags: ", detail);
                    proof {
                        reveal_strlit("Failed to read MP4 tags: ");
                        lemma_framed_error_shape("Failed to read MP4 tags: "@, d, gext);
                    }
                    return Err(msg);
                },
            };
            match &artist {
                Some(a) => mp4_set_artist(&mut tag, a.as_str()),
                None => {},
            }
            match &title {
                Some(t) => mp4_set_title(&mut tag, t.as_str()),
                None => {},
            }
            match &album {
                Some(b) => mp4_set_album(&mut tag, b.as_str()),
                None => {},
            }
            match mp4_write(&tag, file_path) {
                Ok(()) => Ok(()),
                Err(detail) => {
                    let ghost d = detail@;
                    let msg = prefix_msg("Failed to write MP4 tags: ", detail);
                    proof {
                        reveal_strlit("Failed to write MP4 tags: ");
                        lemma_framed_error_shape("Failed to write MP4 tags: "@, d, gext);
                    }
                    Err(msg)
                },
            }
        },
        WriteFormat::Tagged => {
            let mut tagged = match lofty_open(file_path) {
                Ok(f) => f,
                Err((opened, detail)) => {
                    let ghost d = detail@;
                    if opened {
                        let msg = prefix_msg("Failed to read tags: ", detail);
                        proof {
                            reveal_strlit("Failed to read tags: ");
                            lemma_framed_error_shape("Failed to read tags: "@, d, gext);
                        }
                        return Err(msg);
                    } else {
                        let msg = prefix_msg("Failed to open file: ", detail);
                        proof {
                            reveal_strlit("Failed to open file: ");
                            lemma_framed_error_shape("Failed to open file: "@, d, gext);
                        }
                        return Err(msg);
                    }
                },
            };
            if !lofty_has_primary(&tagged) {
                lofty_insert_primary(&mut tagged);
            }
            match &artist {
                Some(a) => lofty_set_artist(&mut tagged, a.as_str()),
                None => {},
            }
            match &title {
                Some(t) => lofty_set_title(&mut tagged, t.as_str()),
                None => {},
            }
            match &album {
                Some(b) => lofty_set_album(&mut tagged, b.as_str()),
                None => {},
            }
            match lofty_save_primary(&tagged, file_path) {
                Ok(()) => Ok(()),
                Err(detail) => {
                    let ghost d = detail@;
                    let msg = prefix_msg("Failed to save tags: ", detail);
                    proof {
                        reveal_strlit("Failed to save tags: ");
                        lemma_framed_error_shape("Failed to save tags: "@, d, gext);
                    }
                    Err(msg)
                },
            }
        },
        WriteFormat::Unsupported => {
            proof {
                lemma_refusals_differ(gext);
            }
            Err(unsupported_msg(&ext))
        },
    }
}

} // verus!
