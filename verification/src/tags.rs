//! The trusted boundary around the tag libraries: the ID3 reader/writer, the
//! MP4-atom reader/writer, the tagged-file writer for FLAC/WAV/OGG, and the
//! base64 encoder for embedded pictures.

use vstd::prelude::*;
use id3::TagLike;
use lofty::{Accessor, TagExt, TaggedFileExt};
use base64::Engine;

verus! {

#[verifier::external_type_specification]
#[verifier::external_body]
pub struct ExId3Tag(id3::Tag);

#[verifier::external_type_specification]
#[verifier::external_body]
pub struct ExMp4Tag(mp4ameta::Tag);

#[verifier::external_type_specification]
#[verifier::external_body]
pub struct ExTaggedFile(lofty::TaggedFile);

/// What a tag container holds, before any cleanup: the raw strings, the
/// embedded duration in milliseconds, and the first picture's bytes.
#[derive(Debug)]
pub struct RawTagData {
    pub artist: Option<String>,
    pub title: Option<String>,
    pub album: Option<String>,
    pub duration_ms: Option<u64>,
    pub cover: Option<Vec<u8>>,
}

/// Relies on id3's `Tag::read_from_path`, the `TagLike` accessors,
/// `Tag::pictures` and `TagLike::duration` (milliseconds): the tag's raw
/// fields, or `None` when no ID3 tag parses from the file.
#[verifier::external_body]
pub(crate) fn id3_read_raw(path: &str) -> (r: Option<RawTagData>) {
    match id3::Tag::read_from_path(path) {
        Ok(tag) => Some(RawTagData {
            artist: tag.artist().map(|s| s.to_string()),
            title: tag.title().map(|s| s.to_string()),
            album: tag.album().map(|s| s.to_string()),
            duration_ms: tag.duration().map(|ms| ms as u64),
            cover: tag.pictures().next().map(|p| p.data.clone()),
        }),
        Err(_) => None,
    }
}

/// Relies on mp4ameta's `Tag::read_from_path`, its accessors, `Tag::artworks`
/// and `Tag::duration` (a std `Duration`, here in whole milliseconds): the
/// tag's raw fields, or `None` when no MP4 tag parses from the file.
#[verifier::external_body]
pub(crate) fn mp4_read_raw(path: &str) -> (r: Option<RawTagData>) {
    match mp4ameta::Tag::read_from_path(path) {
        Ok(tag) => Some(RawTagData {
            artist: tag.artist().map(|s| s.to_string()),
            title: tag.title().map(|s| s.to_string()),
            album: tag.album().map(|s| s.to_string()),
            duration_ms: tag.duration().map(|d| d.as_millis() as u64),
            cover: tag.artworks().next().map(|art| art.data.to_vec()),
        }),
        Err(_) => None,
    }
}

/// Relies on id3's `Tag::read_from_path` and `Tag::new`: the file's existing
/// tag container, or a fresh empty one when none parses.
#[verifier::external_body]
pub(crate) fn id3_load_or_new(path: &str) -> (r: id3::Tag) {
    id3::Tag::read_from_path(path).unwrap_or_else(|_| id3::Tag::new())
}

/// Relies on id3's `TagLike::set_artist`.
#[verifier::external_body]
pub(crate) fn id3_set_artist(tag: &mut id3::Tag, v: &str) {
    tag.set_artist(v);
}

/// Relies on id3's `TagLike::set_title`.
#[verifier::external_body]
pub(crate) fn id3_set_title(tag: &mut id3::Tag, v: &str) {
    tag.set_title(v);
}

/// Relies on id3's `TagLike::set_album`.
#[verifier::external_body]
pub(crate) fn id3_set_album(tag: &mut id3::Tag, v: &str) {
    tag.set_album(v);
}

/// Relies on id3's `Tag::write_to_path` with the ID3v2.4 version target;
/// `Err` carries the library error's text.
#[verifier::external_body]
pub(crate) fn id3_write(tag: &id3::Tag, path: &str) -> (r: Result<(), String>) {
    tag.write_to_path(path, id3::Version::Id3v24).map_err(|e| e.to_string())
}

/// Relies on mp4ameta's `Tag::read_from_path`; `Err` carries the library
/// error's text.
#[verifier::external_body]
pub(crate) fn mp4_load(path: &str) -> (r: Result<mp4ameta::Tag, String>) {
    mp4ameta::Tag::read_from_path(path).map_err(|e| e.to_string())
}

/// Relies on mp4ameta's `Tag::set_artist`.
#[verifier::external_body]
pub(crate) fn mp4_set_artist(tag: &mut mp4ameta::Tag, v: &str) {
    tag.set_artist(v);
}

/// Relies on mp4ameta's `Tag::set_title`.
#[verifier::external_body]
pub(crate) fn mp4_set_title(tag: &mut mp4ameta::Tag, v: &str) {
    tag.set_title(v);
}

/// Relies on mp4ameta's `Tag::set_album`.
#[verifier::external_body]
pub(crate) fn mp4_set_album(tag: &mut mp4ameta::Tag, v: &str) {
    tag.set_album(v);
}

/// Relies on mp4ameta's `Tag::write_to_path`; `Err` carries the library
/// error's text.
#[verifier::external_body]
pub(crate) fn mp4_write(tag: &mp4ameta::Tag, path: &str) -> (r: Result<(), String>) {
    tag.write_to_path(path).map_err(|e| e.to_string())
}

/// Whether a tagged file holds a tag of its primary tag type.
pub uninterp spec fn has_primary_tag(f: lofty::TaggedFile) -> bool;

/// Relies on lofty's `Probe::open` and `Probe::read`.  `Err` carries the
/// library error's text, with `true` when opening succeeded and reading the
/// tags failed, `false` when the file could not be opened.
#[verifier::external_body]
pub(crate) fn lofty_open(path: &str) -> (r: Result<lofty::TaggedFile, (bool, String)>) {
    match lofty::Probe::open(path) {
        Err(e) => Err((false, e.to_string())),
        Ok(probe) => match probe.read() {
            Err(e) => Err((true, e.to_string())),
            Ok(f) => Ok(f),
        },
    }
}

/// Relies on lofty's `TaggedFileExt::primary_tag`: whether the file already
/// has a tag of its primary type.
#[verifier::external_body]
pub(crate) fn lofty_has_primary(f: &lofty::TaggedFile) -> (r: bool)
    ensures
        r == has_primary_tag(*f),
{
    f.primary_tag().is_some()
}

/// Relies on lofty's `TaggedFileExt::insert_tag` with an empty tag of the
/// file's primary tag type: a file's primary tag type is always a supported
/// type, so after the insertion the primary tag is present.
#[verifier::external_body]
pub(crate) fn lofty_insert_primary(f: &mut lofty::TaggedFile)
    ensures
        has_primary_tag(*final(f)),
{
    let tag_type = f.file_type().primary_tag_type();
    f.insert_tag(lofty::Tag::new(tag_type));
}

/// Relies on lofty's `Accessor::set_artist` on the primary tag.
#[verifier::external_body]
pub(crate) fn lofty_set_artist(f: &mut lofty::TaggedFile, v: &str)
    requires
        has_primary_tag(*old(f)),
    ensures
        has_primary_tag(*final(f)),
{
    f.primary_tag_mut().unwrap().set_artist(v.to_string());
}

/// Relies on lofty's `Accessor::set_title` on the primary tag.
#[verifier::external_body]
pub(crate) fn lofty_set_title(f: &mut lofty::TaggedFile, v: &str)
    requires
        has_primary_tag(*old(f)),
    ensures
        has_primary_tag(*final(f)),
{
    f.primary_tag_mut().unwrap().set_title(v.to_string());
}

/// Relies on lofty's `Accessor::set_album` on the primary tag.
#[verifier::external_body]
pub(crate) fn lofty_set_album(f: &mut lofty::TaggedFile, v: &str)
    requires
        has_primary_tag(*old(f)),
    ensures
        has_primary_tag(*final(f)),
{
    f.primary_tag_mut().unwrap().set_album(v.to_string());
}

/// Relies on lofty's `TagExt::save_to_path` on the primary tag; `Err`
/// carries the library error's text.
#[verifier::external_body]
pub(crate) fn lofty_save_primary(f: &lofty::TaggedFile, path: &str) -> (r: Result<(), String>)
    requires
        has_primary_tag(*f),
{
    f.primary_tag().unwrap().save_to_path(path).map_err(|e| e.to_string())
}

/// What base64-encoding a byte string yields.
pub uninterp spec fn base64_of(data: Seq<u8>) -> Seq<char>;

/// Relies on base64's standard-alphabet engine with padding: the encoding is
/// a function of the bytes alone, four output characters for every three
/// input bytes, rounded up.
#[verifier::external_body]
pub(crate) fn base64_encode(data: &Vec<u8>) -> (r: String)
    ensures
        r@ == base64_of(data@),
        r@.len() == ((data@.len() + 2) / 3) * 4,
{
    base64::engine::general_purpose::STANDARD.encode(data)
}

} // verus!
