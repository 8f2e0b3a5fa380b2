//! The generic container reader: probe a media source, take the duration
//! from the default track's frame count and sample rate, and scan the
//! prober-side and format-side revision queues — current revision first,
//! popped revisions next, stopping early once artist, title, album and cover
//! are all found.

use vstd::prelude::*;
use crate::fields::{no_fields, RawMetadataFields};
use crate::formats::{duration_ms_of, duration_ms_spec};
use crate::probe::{
    format_current, format_pop, probe_current, probe_open, probe_pop, session_facts, format_queue,
    probe_queue, TrackFacts, META_BYTE_LIMIT,
};
use crate::scan::{
    apply_revision, apply_revisions, consult_queue, lemma_apply_revisions_complete,
    lemma_apply_revisions_concat, lemma_apply_revisions_snoc, sv_complete, sv_empty, sv_tags_done,
    RawRevision, ScanState, ScanView,
};
use crate::text::norm_spec;

verus! {

/// Every textual fact the scan has gathered is cleaned and non-empty.
pub open spec fn sv_wf(s: ScanView) -> bool {
    &&& (s.artist matches Some(a) ==> norm_spec(a) == a && a.len() > 0)
    &&& (s.title matches Some(t) ==> norm_spec(t) == t && t.len() > 0)
    &&& (s.album matches Some(b) ==> norm_spec(b) == b && b.len() > 0)
}

pub proof fn lemma_apply_tag_wf(s: ScanView, t: crate::scan::RawTag)
    requires
        sv_wf(s),
    ensures
        sv_wf(crate::scan::apply_tag(s, t)),
{
    crate::text::lemma_normalize_idempotent(t.value@);
}

pub proof fn lemma_apply_tags_wf(s: ScanView, tags: Seq<crate::scan::RawTag>)
    requires
        sv_wf(s),
    ensures
        sv_wf(crate::scan::apply_tags(s, tags)),
    decreases tags.len(),
{
    if tags.len() > 0 {
        lemma_apply_tag_wf(s, tags[0]);
        lemma_apply_tags_wf(crate::scan::apply_tag(s, tags[0]), tags.drop_first());
    }
}

pub proof fn lemma_apply_revision_wf(s: ScanView, r: RawRevision)
    requires
        sv_wf(s),
    ensures
        sv_wf(apply_revision(s, r)),
{
    lemma_apply_tags_wf(s, r.tags@);
}

pub proof fn lemma_apply_revisions_wf(s: ScanView, rs: Seq<RawRevision>)
    requires
        sv_wf(s),
    ensures
        sv_wf(apply_revisions(s, rs)),
    decreases rs.len(),
{
    if rs.len() > 0 {
        lemma_apply_revision_wf(s, rs[0]);
        lemma_apply_revisions_wf(apply_revision(s, rs[0]), rs.drop_first());
    }
}

/// Whatever the queues hold, a consulted queue yields cleaned, non-empty
/// textual facts.
pub proof fn lemma_consult_queue_wf(s: ScanView, q: Seq<RawRevision>)
    requires
        sv_wf(s),
    ensures
        sv_wf(consult_queue(s, q)),
{
    if q.len() > 0 {
        lemma_apply_revision_wf(s, q[0]);
        let s1 = apply_revision(s, q[0]);
        if !sv_tags_done(s1) && q.len() > 1 {
            lemma_apply_revisions_wf(s1, q.take(q.len() - 1));
        }
    }
}

fn consult_probe_queue(st: &mut ScanState, session: &mut symphonia::core::probe::ProbeResult)
    ensures
        final(st)@ == consult_queue(old(st)@, probe_queue(*old(session))),
        format_queue(*final(session)) == format_queue(*old(session)),
{
    let ghost q0 = probe_queue(*session);
    let ghost fq0 = format_queue(*session);
    match probe_current(session) {
        Some(rev) => st.apply_revision(&rev),
        None => {},
    }
    let ghost s1 = st@;
    let ghost pops: Seq<RawRevision> = if q0.len() <= 1 {
        Seq::empty()
    } else {
        q0.take(q0.len() - 1)
    };
    if !st.tags_done() {
        let ghost mut k: int = 0;
        proof {
            assert(pops.take(0) =~= Seq::<RawRevision>::empty());
        }
        loop
            invariant_except_break
                0 <= k <= pops.len(),
                probe_queue(*session) == q0.skip(k),
                format_queue(*session) == fq0,
                st@ == apply_revisions(s1, pops.take(k)),
                pops == if q0.len() <= 1 {
                    Seq::<RawRevision>::empty()
                } else {
                    q0.take(q0.len() - 1)
                },
            ensures
                st@ == apply_revisions(s1, pops),
                format_queue(*session) == fq0,
            decreases pops.len() - k,
        {
            proof {
                assert(q0.skip(0) =~= q0);
            }
            match probe_pop(session) {
                Some(rev) => {
                    proof {
                        assert(q0.skip(k).len() > 1);
                        assert(q0.skip(k)[0] == q0[k]);
                        assert(q0.skip(k).drop_first() =~= q0.skip(k + 1));
                        assert(pops[k] == q0[k]);
                    }
                    st.apply_revision(&rev);
                    proof {
                        lemma_apply_revisions_snoc(s1, pops.take(k), rev);
                        assert(pops.take(k).push(pops[k]) =~= pops.take(k + 1));
                        k = k + 1;
                    }
                    if st.complete() {
                        proof {
                            assert(pops =~= pops.take(k) + pops.skip(k));
                            lemma_apply_revisions_concat(s1, pops.take(k), pops.skip(k));
                            lemma_apply_revisions_complete(st@, pops.skip(k));
                        }
                        break ;
                    }
                },
                None => {
                    proof {
                        assert(q0.skip(k).len() <= 1);
                        if q0.len() > 1 {
                            assert(k == pops.len());
                        }
                        assert(pops.take(k) =~= pops);
                    }
                    break ;
                },
            }
        }
    }
}

fn consult_format_queue(st: &mut ScanState, session: &mut symphonia::core::probe::ProbeResult)
    ensures
        final(st)@ == consult_queue(old(st)@, format_queue(*old(session))),
{
    let ghost q0 = format_queue(*session);
    match format_current(session) {
        Some(rev) => st.apply_revision(&rev),
        None => {},
    }
    let ghost s1 = st@;
    let ghost pops: Seq<RawRevision> = if q0.len() <= 1 {
        Seq::empty()
    } else {
        q0.take(q0.len() - 1)
    };
    if !st.tags_done() {
        let ghost mut k: int = 0;
        proof {
            assert(pops.take(0) =~= Seq::<RawRevision>::empty());
        }
        loop
            invariant_except_break
                0 <= k <= pops.len(),
                format_queue(*session) == q0.skip(k),
                st@ == apply_revisions(s1, pops.take(k)),
                pops == if q0.len() <= 1 {
                    Seq::<RawRevision>::empty()
                } else {
                    q0.take(q0.len() - 1)
                },
            ensures
                st@ == apply_revisions(s1, pops),
            decreases pops.len() - k,
        {
            proof {
                assert(q0.skip(0) =~= q0);
            }
            match format_pop(session) {
                Some(rev) => {
                    proof {
                        assert(q0.skip(k).len() > 1);
                        assert(q0.skip(k)[0] == q0[k]);
                        assert(q0.skip(k).drop_first() =~= q0.skip(k + 1));
                        assert(pops[k] == q0[k]);
                    }
                    st.apply_revision(&rev);
                    proof {
                        lemma_apply_revisions_snoc(s1, pops.take(k), rev);
                        assert(pops.take(k).push(pops[k]) =~= pops.take(k + 1));
                        k = k + 1;
                    }
                    if st.complete() {
                        proof {
                            assert(pops =~= pops.take(k) + pops.skip(k));
                            lemma_apply_revisions_concat(s1, pops.take(k), pops.skip(k));
                            lemma_apply_revisions_complete(st@, pops.skip(k));
                        }
                        break ;
                    }
                },
                None => {
                    proof {
                        assert(q0.skip(k).len() <= 1);
                        if q0.len() > 1 {
                            assert(k == pops.len());
                        }
                        assert(pops.take(k) =~= pops);
                    }
                    break ;
                },
            }
        }
    }
}

/// Scan a probed file's metadata: the prober-side queue first, the
/// format-side queue second, each consulted current-revision-first with
/// first-found-wins and an early stop once everything is present.
pub fn scan_probe_result(session: &mut symphonia::core::probe::ProbeResult) -> (st: ScanState)
    ensures
        st@ == consult_queue(
            consult_queue(sv_empty(), probe_queue(*old(session))),
            format_queue(*old(session)),
        ),
        sv_wf(st@),
{
    let mut st = ScanState::new();
    consult_probe_queue(&mut st, session);
    consult_format_queue(&mut st, session);
    proof {
        lemma_consult_queue_wf(sv_empty(), probe_queue(*old(session)));
        lemma_consult_queue_wf(
            consult_queue(sv_empty(), probe_queue(*old(session))),
            format_queue(*old(session)),
        );
    }
    st
}

/// Assemble a reader record from a finished scan and a duration.
pub fn fields_of_scan(st: ScanState, duration_ms: u64) -> (r: RawMetadataFields)
    ensures
        r.artist == st.artist,
        r.title == st.title,
        r.album == st.album,
        r.cover_image == st.cover,
        r.duration_ms == duration_ms,
{
    RawMetadataFields {
        artist: st.artist,
        title: st.title,
        album: st.album,
        duration_ms,
        cover_image: st.cover,
    }
}

/// The duration the probed facts imply: zero unless the default track knows
/// both a positive frame count and a positive sample rate.
pub fn duration_of_facts(facts: &Option<TrackFacts>) -> (r: u64)
    ensures
        r == match facts {
            Some(f) => match (f.n_frames, f.sample_rate) {
                (Some(n), Some(sr)) => duration_ms_spec(n, sr),
                _ => 0u64,
            },
            None => 0u64,
        },
{
    match facts {
        Some(f) => match (f.n_frames, f.sample_rate) {
            (Some(n), Some(sr)) => duration_ms_of(n, sr),
            _ => 0,
        },
        None => 0,
    }
}

/// The generic container reader.  Any parse failure degrades to an empty
/// record; a success carries cleaned, non-empty textual facts, the first
/// picture found, and the duration the container's own parameters imply.
pub fn extract_generic(
    source: symphonia::core::io::MediaSourceStream,
    ext_hint: &str,
    gapless: bool,
) -> (r: RawMetadataFields)
    ensures
        r.artist matches Some(a) ==> norm_spec(a@) == a@ && a@.len() > 0,
        r.title matches Some(t) ==> norm_spec(t@) == t@ && t@.len() > 0,
        r.album matches Some(b) ==> norm_spec(b@) == b@ && b@.len() > 0,
{
    match probe_open(source, ext_hint, gapless, META_BYTE_LIMIT) {
        Err(_) => no_fields(),
        Ok(mut session) => {
            let facts = session_facts(&session);
            let duration_ms = duration_of_facts(&facts);
            let st = scan_probe_result(&mut session);
            fields_of_scan(st, duration_ms)
        },
    }
}

} // verus!
