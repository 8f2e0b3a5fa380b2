//! Metadata reconciliation for audio files.
//!
//! The library reads tag metadata for an audio file from several independent,
//! partially overlapping sources (an ID3-style reader, an MP4-atom reader and a
//! generic container prober), merges the outcomes under a fixed precedence, and
//! can route a metadata update to the writer for the file's format.  Playlists
//! are plain records of tracks; the rules that govern saving and renaming them
//! live here, while the actual file handling is the caller's.

pub mod fields;
pub mod formats;
pub mod extract;
pub mod pathname;
pub mod probe;
pub mod scan;
pub mod tags;
pub mod track;
pub mod playlist;
pub mod text;
pub mod writer;

pub use text::clean_metadata_string;
