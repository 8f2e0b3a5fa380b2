//! The trusted boundary around symphonia's container prober.
//!
//! A probed file carries two queues of metadata revisions: one gathered by
//! the prober itself and one owned by the demuxed format.  The two
//! uninterpreted functions below name the contents of those queues, as the
//! plain-value image each revision converts to; the wrappers state, against
//! symphonia's own source, how `current` and `pop` walk a queue: `current`
//! returns the front (oldest) revision, and `pop` discards and returns the
//! front — but never the last remaining revision.

use vstd::prelude::*;
use crate::scan::{RawRevision, RawTag, TagKind};

verus! {

#[verifier::external_type_specification]
#[verifier::external_body]
pub struct ExMediaSourceStream(symphonia::core::io::MediaSourceStream);

#[verifier::external_type_specification]
#[verifier::external_body]
pub struct ExProbeResult(symphonia::core::probe::ProbeResult);

#[verifier::external_type_specification]
#[verifier::external_body]
pub struct ExMetadataRevision(symphonia::core::meta::MetadataRevision);

/// The plain-value image of the prober-side revision queue.
pub uninterp spec fn probe_queue(s: symphonia::core::probe::ProbeResult) -> Seq<RawRevision>;

/// The plain-value image of the format-side revision queue.
pub uninterp spec fn format_queue(s: symphonia::core::probe::ProbeResult) -> Seq<RawRevision>;

/// Byte cap for metadata and embedded pictures during a probe, to bound
/// memory on hostile inputs.
pub const META_BYTE_LIMIT: usize = 50 * 1024 * 1024;

/// Container facts of the probed file's default track.
#[derive(Debug)]
pub struct TrackFacts {
    /// A printable codec identifier.
    pub codec: String,
    pub n_frames: Option<u64>,
    pub sample_rate: Option<u32>,
    pub channels: Option<u32>,
    pub bits_per_sample: Option<u32>,
}

/// Relies on symphonia's probe (`get_probe().format`): opens the source with
/// the extension as a hint, the given gapless option and capped metadata
/// sizes.  `Err` carries the probe error's text when the container cannot be
/// probed.
#[verifier::external_body]
pub(crate) fn probe_open(
    source: symphonia::core::io::MediaSourceStream,
    ext_hint: &str,
    gapless: bool,
    byte_limit: usize,
) -> (r: Result<symphonia::core::probe::ProbeResult, String>)
{
    let mut hint = symphonia::core::probe::Hint::new();
    hint.with_extension(ext_hint);
    let fmt_opts = symphonia::core::formats::FormatOptions { enable_gapless: gapless, ..Default::default() };
    let meta_opts = symphonia::core::meta::MetadataOptions {
        limit_metadata_bytes: symphonia::core::meta::Limit::Maximum(byte_limit),
        limit_visual_bytes: symphonia::core::meta::Limit::Maximum(byte_limit),
    };
    symphonia::default::get_probe().format(&hint, source, &fmt_opts, &meta_opts).map_err(|e| e.to_string())
}

/// Relies on symphonia's `MetadataRevision::tags` and `::visuals`: converts
/// one revision to its plain-value image — each tag's standardized key and
/// printed value, and the raw bytes of the first picture.
#[verifier::external_body]
fn raw_revision_of(rev: &symphonia::core::meta::MetadataRevision) -> (r: RawRevision) {
    let tags = rev.tags().iter().map(|t| RawTag {
        kind: match t.std_key {
            Some(symphonia::core::meta::StandardTagKey::Artist) => TagKind::Artist,
            Some(symphonia::core::meta::StandardTagKey::TrackTitle) => TagKind::Title,
            Some(symphonia::core::meta::StandardTagKey::Album) => TagKind::Album,
            _ => TagKind::Other,
        },
        value: t.value.to_string(),
    }).collect();
    let visual = rev.visuals().first().map(|v| v.data.to_vec());
    RawRevision { tags, visual }
}

/// Relies on symphonia's `ProbedMetadata::get` and `Metadata::current`: the
/// current revision of the prober-side queue is its front; reading it moves
/// nothing.
#[verifier::external_body]
pub(crate) fn probe_current(s: &mut symphonia::core::probe::ProbeResult) -> (r: Option<RawRevision>)
    ensures
        probe_queue(*final(s)) == probe_queue(*old(s)),
        format_queue(*final(s)) == format_queue(*old(s)),
        r == if probe_queue(*final(s)).len() > 0 {
            Some(probe_queue(*final(s))[0])
        } else {
            None::<RawRevision>
        },
{
    match s.metadata.get() {
        Some(m) => m.current().map(raw_revision_of),
        None => None,
    }
}

/// Relies on symphonia's `Metadata::pop`: it discards and returns the front
/// revision of the prober-side queue, except that it never empties the queue
/// — the last revision stays and `pop` returns nothing.
#[verifier::external_body]
pub(crate) fn probe_pop(s: &mut symphonia::core::probe::ProbeResult) -> (r: Option<RawRevision>)
    ensures
        format_queue(*final(s)) == format_queue(*old(s)),
        probe_queue(*old(s)).len() > 1 ==> r == Some(probe_queue(*old(s))[0]) && probe_queue(*final(s))
            == probe_queue(*old(s)).drop_first(),
        probe_queue(*old(s)).len() <= 1 ==> r == None::<RawRevision> && probe_queue(*final(s))
            == probe_queue(*old(s)),
{
    match s.metadata.get() {
        Some(mut m) => m.pop().map(|rev| raw_revision_of(&rev)),
        None => None,
    }
}

/// Relies on symphonia's `FormatReader::metadata` and `Metadata::current`:
/// the current revision of the format-side queue is its front; reading it
/// moves nothing.
#[verifier::external_body]
pub(crate) fn format_current(s: &mut symphonia::core::probe::ProbeResult) -> (r: Option<RawRevision>)
    ensures
        probe_queue(*final(s)) == probe_queue(*old(s)),
        format_queue(*final(s)) == format_queue(*old(s)),
        r == if format_queue(*final(s)).len() > 0 {
            Some(format_queue(*final(s))[0])
        } else {
            None::<RawRevision>
        },
{
    s.format.metadata().current().map(raw_revision_of)
}

/// Relies on symphonia's `Metadata::pop` on the format-side queue: it
/// discards and returns the front revision, except that it never empties the
/// queue — the last revision stays and `pop` returns nothing.
#[verifier::external_body]
pub(crate) fn format_pop(s: &mut symphonia::core::probe::ProbeResult) -> (r: Option<RawRevision>)
    ensures
        probe_queue(*final(s)) == probe_queue(*old(s)),
        format_queue(*old(s)).len() > 1 ==> r == Some(format_queue(*old(s))[0]) && format_queue(*final(s))
            == format_queue(*old(s)).drop_first(),
        format_queue(*old(s)).len() <= 1 ==> r == None::<RawRevision> && format_queue(*final(s))
            == format_queue(*old(s)),
{
    s.format.metadata().pop().map(|rev| raw_revision_of(&rev))
}

/// Relies on symphonia's `FormatReader::default_track` and the fields of
/// `CodecParameters`: the default track's codec identifier, frame count,
/// sample rate, channel count and bit depth, as plain values.
#[verifier::external_body]
pub(crate) fn session_facts(s: &symphonia::core::probe::ProbeResult) -> (r: Option<TrackFacts>) {
    s.format.default_track().map(|t| TrackFacts {
        codec: format!("{:?}", t.codec_params.codec),
        n_frames: t.codec_params.n_frames,
        sample_rate: t.codec_params.sample_rate,
        channels: t.codec_params.channels.map(|c| c.count() as u32),
        bits_per_sample: t.codec_params.bits_per_sample,
    })
}

} // verus!
