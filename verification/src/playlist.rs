//! Playlists as plain records, and the rules that govern storing them.
//!
//! The actual files live with the caller: one JSON document per playlist,
//! named after the playlist.  This module owns the decisions — what a
//! playlist's file is called, what its directory listing reports, when a
//! load or a rename is refused — while reading and writing the documents is
//! the caller's.

use vstd::prelude::*;
use vstd::string::StringExecFns;
use crate::track::Track;

verus! {

/// A stored playlist: its name (also its storage key), its tracks in order,
/// and an optional cover image (base64).
#[derive(Debug)]
pub struct Playlist {
    pub name: String,
    pub tracks: Vec<Track>,
    pub cover_image: Option<String>,
}

/// What a directory listing reports of one playlist: name, track count and
/// cover, never the tracks themselves.
#[derive(Debug)]
pub struct PlaylistSummary {
    pub name: String,
    pub track_count: usize,
    pub cover_image: Option<String>,
}

/// The listing entry for one playlist.
pub fn summary_of(p: &Playlist) -> (s: PlaylistSummary)
    ensures
        s.name@ == p.name@,
        s.track_count == p.tracks@.len(),
        s.cover_image is Some <==> p.cover_image is Some,
        s.cover_image matches Some(c) ==> c@ == p.cover_image->Some_0@,
{
    PlaylistSummary {
        name: p.name.clone(),
        track_count: p.tracks.len(),
        cover_image: match &p.cover_image {
            Some(c) => Some(c.clone()),
            None => None,
        },
    }
}

/// The file a playlist is stored under: its name with `.json` appended.
pub fn playlist_file_name(name: &str) -> (r: String)
    ensures
        r@ == name@ + ".json"@,
{
    String::from_str(name).concat(".json")
}

/// Whether a load may proceed: a playlist that is not there is refused.
pub fn load_check(exists: bool) -> (r: Result<(), String>)
    ensures
        !exists ==> (r matches Err(m) && m@ == "Playlist not found"@),
        exists ==> r is Ok,
{
    if !exists {
        Err(String::from_str("Playlist not found"))
    } else {
        Ok(())
    }
}

/// Whether a rename may proceed: the old name must be stored, the new name
/// must be free.  Exactly when both hold, the rename goes ahead.
pub fn rename_check(old_exists: bool, new_exists: bool) -> (r: Result<(), String>)
    ensures
        !old_exists ==> (r matches Err(m) && m@ == "Playlist not found"@),
        (old_exists && new_exists) ==> (r matches Err(m) && m@
            == "Playlist with new name already exists"@),
        (old_exists && !new_exists) <==> r is Ok,
{
    if !old_exists {
        Err(String::from_str("Playlist not found"))
    } else if new_exists {
        Err(String::from_str("Playlist with new name already exists"))
    } else {
        Ok(())
    }
}

/// The playlist as it is re-saved under a new name: only the name changes;
/// the tracks and the cover are carried over whole.
pub fn renamed(p: Playlist, new_name: String) -> (r: Playlist)
    ensures
        r.name == new_name,
        r.tracks == p.tracks,
        r.cover_image == p.cover_image,
{
    Playlist { name: new_name, tracks: p.tracks, cover_image: p.cover_image }
}

} // verus!
