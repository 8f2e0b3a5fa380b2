//! First-found-wins scanning of metadata revisions.
//!
//! A container (or its prober) exposes a queue of metadata revisions, each a
//! list of tags plus embedded pictures.  Scanning walks the revisions in
//! order; within and across revisions the first non-empty value for a
//! standardized key wins and is never overwritten, and the first picture seen
//! becomes the cover.  Once artist, title, album and cover are all present,
//! later revisions cannot change anything.

use vstd::prelude::*;
use crate::text::{clean_metadata_string, norm_spec};

verus! {

/// The standardized key of a tag, as far as this library cares.
#[derive(Clone, Copy, Debug, PartialEq, Eq, Structural)]
pub enum TagKind {
    Artist,
    Title,
    Album,
    /// Any other key; scanning ignores it.
    Other,
}

/// One tag of a metadata revision: a standardized key and its raw value.
#[derive(Debug)]
pub struct RawTag {
    pub kind: TagKind,
    pub value: String,
}

/// One metadata revision: its tags in order, and the raw bytes of its first
/// embedded picture, if it has one.
#[derive(Debug)]
pub struct RawRevision {
    pub tags: Vec<RawTag>,
    pub visual: Option<Vec<u8>>,
}

/// What scanning has gathered so far.
#[derive(Debug)]
pub struct ScanState {
    pub artist: Option<String>,
    pub title: Option<String>,
    pub album: Option<String>,
    pub cover: Option<Vec<u8>>,
}

/// The mathematical image of a `ScanState`.
#[verifier::ext_equal]
pub struct ScanView {
    pub artist: Option<Seq<char>>,
    pub title: Option<Seq<char>>,
    pub album: Option<Seq<char>>,
    pub cover: Option<Seq<u8>>,
}

impl View for ScanState {
    type V = ScanView;

    open spec fn view(&self) -> ScanView {
        ScanView {
            artist: match self.artist {
                Some(s) => Some(s@),
                None => None,
            },
            title: match self.title {
                Some(s) => Some(s@),
                None => None,
            },
            album: match self.album {
                Some(s) => Some(s@),
                None => None,
            },
            cover: match self.cover {
                Some(v) => Some(v@),
                None => None,
            },
        }
    }
}

/// A scan that has found nothing yet.
pub open spec fn sv_empty() -> ScanView {
    ScanView { artist: None, title: None, album: None, cover: None }
}

/// All three textual facts are present.
pub open spec fn sv_tags_done(s: ScanView) -> bool {
    s.artist is Some && s.title is Some && s.album is Some
}

/// Everything scanning can find is present.
pub open spec fn sv_complete(s: ScanView) -> bool {
    sv_tags_done(s) && s.cover is Some
}

/// One tag applied: the cleaned value fills its field only when that field
/// is still empty and the cleaned value is non-empty.
pub open spec fn apply_tag(s: ScanView, t: RawTag) -> ScanView {
    let cleaned = norm_spec(t.value@);
    match t.kind {
        TagKind::Artist => if s.artist is None && cleaned.len() > 0 {
            ScanView { artist: Some(cleaned), ..s }
        } else {
            s
        },
        TagKind::Title => if s.title is None && cleaned.len() > 0 {
            ScanView { title: Some(cleaned), ..s }
        } else {
            s
        },
        TagKind::Album => if s.album is None && cleaned.len() > 0 {
            ScanView { album: Some(cleaned), ..s }
        } else {
            s
        },
        TagKind::Other => s,
    }
}

/// A revision's tags applied left to right.
pub open spec fn apply_tags(s: ScanView, tags: Seq<RawTag>) -> ScanView
    decreases tags.len(),
{
    if tags.len() == 0 {
        s
    } else {
        apply_tags(apply_tag(s, tags[0]), tags.drop_first())
    }
}

/// One whole revision applied: its tags, then its picture when the cover is
/// still missing.
pub open spec fn apply_revision(s: ScanView, r: RawRevision) -> ScanView {
    let s1 = apply_tags(s, r.tags@);
    if s1.cover is None {
        match r.visual {
            Some(v) => ScanView { cover: Some(v@), ..s1 },
            None => s1,
        }
    } else {
        s1
    }
}

/// Revisions applied left to right.
pub open spec fn apply_revisions(s: ScanView, rs: Seq<RawRevision>) -> ScanView
    decreases rs.len(),
{
    if rs.len() == 0 {
        s
    } else {
        apply_revisions(apply_revision(s, rs[0]), rs.drop_first())
    }
}

/// One queue of revisions consulted the way the readers do it: the current
/// (oldest) revision first; then, only when a textual fact is still missing,
/// the queue's revisions as popping yields them — every one but the newest,
/// which popping never surrenders.
pub open spec fn consult_queue(s: ScanView, q: Seq<RawRevision>) -> ScanView {
    let s1 = if q.len() > 0 {
        apply_revision(s, q[0])
    } else {
        s
    };
    if !sv_tags_done(s1) && q.len() > 1 {
        apply_revisions(s1, q.take(q.len() - 1))
    } else {
        s1
    }
}

pub proof fn lemma_apply_tags_snoc(s: ScanView, tags: Seq<RawTag>, t: RawTag)
    ensures
        apply_tags(s, tags.push(t)) == apply_tag(apply_tags(s, tags), t),
    decreases tags.len(),
{
    let p = tags.push(t);
    assert(p.len() == tags.len() + 1);
    if tags.len() == 0 {
        assert(p[0] == t);
        assert(p.drop_first() =~= Seq::<RawTag>::empty());
        assert(apply_tags(s, p) == apply_tags(apply_tag(s, t), p.drop_first()));
        assert(apply_tags(apply_tag(s, t), p.drop_first()) == apply_tag(s, t));
        assert(apply_tags(s, tags) == s);
    } else {
        assert(p[0] == tags[0]);
        assert(p.drop_first() =~= tags.drop_first().push(t));
        assert(apply_tags(s, p) == apply_tags(apply_tag(s, tags[0]), tags.drop_first().push(t)));
        lemma_apply_tags_snoc(apply_tag(s, tags[0]), tags.drop_first(), t);
        assert(apply_tags(s, tags) == apply_tags(apply_tag(s, tags[0]), tags.drop_first()));
    }
}

pub proof fn lemma_apply_revisions_snoc(s: ScanView, rs: Seq<RawRevision>, r: RawRevision)
    ensures
        apply_revisions(s, rs.push(r)) == apply_revision(apply_revisions(s, rs), r),
    decreases rs.len(),
{
    let p = rs.push(r);
    assert(p.len() == rs.len() + 1);
    if rs.len() == 0 {
        assert(p[0] == r);
        assert(p.drop_first() =~= Seq::<RawRevision>::empty());
        assert(apply_revisions(s, p) == apply_revisions(apply_revision(s, r), p.drop_first()));
        assert(apply_revisions(apply_revision(s, r), p.drop_first()) == apply_revision(s, r));
        assert(apply_revisions(s, rs) == s);
    } else {
        assert(p[0] == rs[0]);
        assert(p.drop_first() =~= rs.drop_first().push(r));
        assert(apply_revisions(s, p) == apply_revisions(
            apply_revision(s, rs[0]),
            rs.drop_first().push(r),
        ));
        lemma_apply_revisions_snoc(apply_revision(s, rs[0]), rs.drop_first(), r);
        assert(apply_revisions(s, rs) == apply_revisions(apply_revision(s, rs[0]), rs.drop_first()));
    }
}

pub proof fn lemma_apply_tag_complete(s: ScanView, t: RawTag)
    requires
        sv_complete(s),
    ensures
        apply_tag(s, t) == s,
{
}

pub proof fn lemma_apply_tags_complete(s: ScanView, tags: Seq<RawTag>)
    requires
        sv_complete(s),
    ensures
        apply_tags(s, tags) == s,
    decreases tags.len(),
{
    if tags.len() > 0 {
        lemma_apply_tag_complete(s, tags[0]);
        lemma_apply_tags_complete(s, tags.drop_first());
    }
}

/// A complete scan state absorbs any further revision.
pub proof fn lemma_apply_revision_complete(s: ScanView, r: RawRevision)
    requires
        sv_complete(s),
    ensures
        apply_revision(s, r) == s,
{
    lemma_apply_tags_complete(s, r.tags@);
}

pub proof fn lemma_apply_revisions_complete(s: ScanView, rs: Seq<RawRevision>)
    requires
        sv_complete(s),
    ensures
        apply_revisions(s, rs) == s,
    decreases rs.len(),
{
    if rs.len() > 0 {
        lemma_apply_revision_complete(s, rs[0]);
        lemma_apply_revisions_complete(s, rs.drop_first());
    }
}

pub proof fn lemma_apply_revisions_concat(s: ScanView, a: Seq<RawRevision>, b: Seq<RawRevision>)
    ensures
        apply_revisions(s, a + b) == apply_revisions(apply_revisions(s, a), b),
    decreases a.len(),
{
    if a.len() == 0 {
        assert(a + b =~= b);
    } else {
        assert((a + b)[0] == a[0]);
        assert((a + b).drop_first() =~= a.drop_first() + b);
        lemma_apply_revisions_concat(apply_revision(s, a[0]), a.drop_first(), b);
    }
}

fn copy_bytes(v: &Vec<u8>) -> (r: Vec<u8>)
    ensures
        r@ == v@,
{
    let mut r: Vec<u8> = Vec::new();
    let mut i: usize = 0;
    while i < v.len()
        invariant
            i <= v@.len(),
            r@ == v@.take(i as int),
        decreases v@.len() - i,
    {
        r.push(v[i]);
        proof {
            assert(v@.take(i as int + 1) =~= v@.take(i as int).push(v@[i as int]));
        }
        i = i + 1;
    }
    proof {
        assert(v@.take(v@.len() as int) =~= v@);
    }
    r
}

impl ScanState {
    /// A scan that has found nothing yet.
    pub fn new() -> (r: ScanState)
        ensures
            r@ == sv_empty(),
    {
        ScanState { artist: None, title: None, album: None, cover: None }
    }

    /// All three textual facts are present.
    pub fn tags_done(&self) -> (r: bool)
        ensures
            r == sv_tags_done(self@),
    {
        self.artist.is_some() && self.title.is_some() && self.album.is_some()
    }

    /// Everything scanning can find is present.
    pub fn complete(&self) -> (r: bool)
        ensures
            r == sv_complete(self@),
    {
        self.tags_done() && self.cover.is_some()
    }

    /// Apply one tag, first value for a key winning.
    pub fn apply_tag(&mut self, t: &RawTag)
        ensures
            final(self)@ == apply_tag(old(self)@, *t),
    {
        match t.kind {
            TagKind::Artist => {
                if self.artist.is_none() {
                    let cleaned = clean_metadata_string(t.value.as_str());
                    if !cleaned.as_str().is_empty() {
                        self.artist = Some(cleaned);
                    }
                }
            },
            TagKind::Title => {
                if self.title.is_none() {
                    let cleaned = clean_metadata_string(t.value.as_str());
                    if !cleaned.as_str().is_empty() {
                        self.title = Some(cleaned);
                    }
                }
            },
            TagKind::Album => {
                if self.album.is_none() {
                    let cleaned = clean_metadata_string(t.value.as_str());
                    if !cleaned.as_str().is_empty() {
                        self.album = Some(cleaned);
                    }
                }
            },
            TagKind::Other => {},
        }
    }

    /// Apply one whole revision: its tags, then its picture as cover when
    /// the cover is still missing.
    pub fn apply_revision(&mut self, rev: &RawRevision)
        ensures
            final(self)@ == apply_revision(old(self)@, *rev),
    {
        let mut i: usize = 0;
        proof {
            assert(rev.tags@.take(0) =~= Seq::<RawTag>::empty());
        }
        while i < rev.tags.len()
            invariant
                i <= rev.tags@.len(),
                self@ == apply_tags(old(self)@, rev.tags@.take(i as int)),
            decreases rev.tags@.len() - i,
        {
            self.apply_tag(&rev.tags[i]);
            proof {
                lemma_apply_tags_snoc(old(self)@, rev.tags@.take(i as int), rev.tags@[i as int]);
                assert(rev.tags@.take(i as int + 1) =~= rev.tags@.take(i as int).push(
                    rev.tags@[i as int],
                ));
            }
            i = i + 1;
        }
        proof {
            assert(rev.tags@.take(rev.tags@.len() as int) =~= rev.tags@);
        }
        if self.cover.is_none() {
            match &rev.visual {
                Some(v) => {
                    self.cover = Some(copy_bytes(v));
                },
                None => {},
            }
        }
    }
}

} // verus!
