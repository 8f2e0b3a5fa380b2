//! Format classification by file extension, the oversized-file guard for the
//! deep gapless scan, and the duration computed from a container's frame
//! count and sample rate.

use vstd::prelude::*;

verus! {

/// Which reader family serves a file when metadata is read.
#[derive(Clone, Copy, Debug, PartialEq, Eq, Structural)]
pub enum TagFormat {
    /// ID3-style tags (`mp3`).
    Id3Like,
    /// MP4-atom tags (`m4a`, `mp4`, `aac`).
    Mp4Like,
    /// No specialized reader; only the generic container prober applies.
    Generic,
}

/// Which writer family serves a file when metadata is written.
#[derive(Clone, Copy, Debug, PartialEq, Eq, Structural)]
pub enum WriteFormat {
    /// ID3-style writer (`mp3`); a missing tag container is created.
    Id3,
    /// MP4-atom writer (`m4a`, `mp4`, `aac`); the container must parse.
    Mp4,
    /// Tagged-file writer (`flac`, `wav`, `ogg`); a missing primary tag
    /// block is created before the update.
    Tagged,
    /// No writer exists for this extension.
    Unsupported,
}

/// Reader classification of a lower-cased extension.
pub open spec fn classify_read_spec(ext: Seq<char>) -> TagFormat {
    if ext == seq!['m', 'p', '3'] {
        TagFormat::Id3Like
    } else if ext == seq!['m', '4', 'a'] || ext == seq!['m', 'p', '4'] || ext == seq![
        'a',
        'a',
        'c',
    ] {
        TagFormat::Mp4Like
    } else {
        TagFormat::Generic
    }
}

/// Writer classification of a lower-cased extension.
pub open spec fn classify_write_spec(ext: Seq<char>) -> WriteFormat {
    if ext == seq!['m', 'p', '3'] {
        WriteFormat::Id3
    } else if ext == seq!['m', '4', 'a'] || ext == seq!['m', 'p', '4'] || ext == seq![
        'a',
        'a',
        'c',
    ] {
        WriteFormat::Mp4
    } else if ext == seq!['f', 'l', 'a', 'c'] || ext == seq!['w', 'a', 'v'] || ext == seq![
        'o',
        'g',
        'g',
    ] {
        WriteFormat::Tagged
    } else {
        WriteFormat::Unsupported
    }
}

fn is_chars3(v: &Vec<char>, a: char, b: char, c: char) -> (r: bool)
    ensures
        r == (v@ == seq![a, b, c]),
{
    let r = v.len() == 3 && v[0] == a && v[1] == b && v[2] == c;
    proof {
        if r {
            assert(v@ =~= seq![a, b, c]);
        } else if v@ == seq![a, b, c] {
            assert(v@.len() == 3 && v@[0] == a && v@[1] == b && v@[2] == c);
            assert(false);
        }
    }
    r
}

fn is_chars4(v: &Vec<char>, a: char, b: char, c: char, d: char) -> (r: bool)
    ensures
        r == (v@ == seq![a, b, c, d]),
{
    let r = v.len() == 4 && v[0] == a && v[1] == b && v[2] == c && v[3] == d;
    proof {
        if r {
            assert(v@ =~= seq![a, b, c, d]);
        } else if v@ == seq![a, b, c, d] {
            assert(v@.len() == 4 && v@[0] == a && v@[1] == b && v@[2] == c && v@[3] == d);
            assert(false);
        }
    }
    r
}

/// Pick the reader family for a lower-cased extension.
pub fn classify_read(ext: &Vec<char>) -> (r: TagFormat)
    ensures
        r == classify_read_spec(ext@),
{
    if is_chars3(ext, 'm', 'p', '3') {
        TagFormat::Id3Like
    } else if is_chars3(ext, 'm', '4', 'a') || is_chars3(ext, 'm', 'p', '4') || is_chars3(
        ext,
        'a',
        'a',
        'c',
    ) {
        TagFormat::Mp4Like
    } else {
        TagFormat::Generic
    }
}

/// Pick the writer family for a lower-cased extension.
pub fn classify_write(ext: &Vec<char>) -> (r: WriteFormat)
    ensures
        r == classify_write_spec(ext@),
{
    if is_chars3(ext, 'm', 'p', '3') {
        WriteFormat::Id3
    } else if is_chars3(ext, 'm', '4', 'a') || is_chars3(ext, 'm', 'p', '4') || is_chars3(
        ext,
        'a',
        'a',
        'c',
    ) {
        WriteFormat::Mp4
    } else if is_chars4(ext, 'f', 'l', 'a', 'c') || is_chars3(ext, 'w', 'a', 'v') || is_chars3(
        ext,
        'o',
        'g',
        'g',
    ) {
        WriteFormat::Tagged
    } else {
        WriteFormat::Unsupported
    }
}

/// Files above this size never get the deep gapless scan, whatever the
/// caller asked for: its cost grows with file size and can exhaust memory.
pub const GAPLESS_SIZE_LIMIT_BYTES: u64 = 3 * 1024 * 1024 * 1024;

/// The oversized-file circuit breaker: the requested gapless flag survives
/// exactly when the file is within the size limit.
pub fn decide_gapless(requested: bool, file_size_bytes: u64) -> (effective: bool)
    ensures
        effective == (requested && file_size_bytes <= GAPLESS_SIZE_LIMIT_BYTES),
        requested && file_size_bytes > GAPLESS_SIZE_LIMIT_BYTES ==> !effective,
        file_size_bytes <= GAPLESS_SIZE_LIMIT_BYTES ==> effective == requested,
{
    if requested && file_size_bytes > GAPLESS_SIZE_LIMIT_BYTES {
        false
    } else {
        requested
    }
}

/// Duration in milliseconds from a frame count and a sample rate: zero when
/// either is missing or zero, else `frames * 1000 / rate`, saturated at the
/// largest representable value.
pub open spec fn duration_ms_spec(n_frames: u64, sample_rate: u32) -> u64 {
    if n_frames > 0 && sample_rate > 0 {
        let ms = (n_frames as int) * 1000 / (sample_rate as int);
        if ms > u64::MAX {
            u64::MAX
        } else {
            ms as u64
        }
    } else {
        0
    }
}

/// Compute the duration a container's frame count and sample rate imply.
pub fn duration_ms_of(n_frames: u64, sample_rate: u32) -> (r: u64)
    ensures
        r == duration_ms_spec(n_frames, sample_rate),
{
    if n_frames > 0 && sample_rate > 0 {
        proof {
            assert((n_frames as u128) * 1000 <= (u64::MAX as u128) * 1000) by (nonlinear_arith)
                requires
                    n_frames <= u64::MAX,
            ;
        }
        let prod: u128 = (n_frames as u128) * 1000;
        let ms: u128 = prod / (sample_rate as u128);
        if ms > u64::MAX as u128 {
            u64::MAX
        } else {
            ms as u64
        }
    } else {
        0
    }
}

} // verus!
