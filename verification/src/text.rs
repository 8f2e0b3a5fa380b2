//! Cleanup of raw tag strings.
//!
//! Legacy fixed-width tag encodings pad values with NUL bytes and stray white
//! space.  `clean_metadata_string` removes every NUL character and trims white
//! space from both ends; the result is idempotent under a second cleaning.

use vstd::prelude::*;
use vstd::string::{StrSliceExecFns, StringExecFns};

verus! {

/// The characters `str::trim` treats as white space (Unicode `White_Space`).
pub open spec fn is_space(c: char) -> bool {
    let u = c as u32;
    u == 0x20 || (0x09 <= u && u <= 0x0D) || u == 0x85 || u == 0xA0 || u == 0x1680 || (0x2000
        <= u && u <= 0x200A) || u == 0x2028 || u == 0x2029 || u == 0x202F || u == 0x205F || u
        == 0x3000
}

/// `s` holds no NUL character.
pub open spec fn no_nulls(s: Seq<char>) -> bool {
    forall|i: int| 0 <= i < s.len() ==> s[i] != '\0'
}

/// `s` with every NUL character removed.
pub open spec fn strip_nulls(s: Seq<char>) -> Seq<char>
    decreases s.len(),
{
    if s.len() == 0 {
        Seq::empty()
    } else if s[0] == '\0' {
        strip_nulls(s.drop_first())
    } else {
        seq![s[0]] + strip_nulls(s.drop_first())
    }
}

/// `s` without its leading white space.
pub open spec fn ltrim(s: Seq<char>) -> Seq<char>
    decreases s.len(),
{
    if s.len() > 0 && is_space(s[0]) {
        ltrim(s.drop_first())
    } else {
        s
    }
}

/// `s` without its trailing white space.
pub open spec fn rtrim(s: Seq<char>) -> Seq<char>
    decreases s.len(),
{
    if s.len() > 0 && is_space(s[s.len() - 1]) {
        rtrim(s.drop_last())
    } else {
        s
    }
}

/// `s` without leading and trailing white space, as `str::trim` returns it.
pub open spec fn ws_trim(s: Seq<char>) -> Seq<char> {
    rtrim(ltrim(s))
}

/// What cleaning a raw tag string yields: white space trimmed, then every NUL
/// removed, then trimmed again to catch white space the NULs had shielded.
pub open spec fn norm_spec(s: Seq<char>) -> Seq<char> {
    ws_trim(strip_nulls(ws_trim(s)))
}

fn is_space_x(c: char) -> (r: bool)
    ensures
        r == is_space(c),
{
    let u = c as u32;
    u == 0x20 || (0x09 <= u && u <= 0x0D) || u == 0x85 || u == 0xA0 || u == 0x1680 || (0x2000 <= u
        && u <= 0x200A) || u == 0x2028 || u == 0x2029 || u == 0x202F || u == 0x205F || u == 0x3000
}

/// Relies on std's `String::push`: appends exactly one character.
#[verifier::external_body]
fn push_char(s: &mut String, c: char)
    ensures
        final(s)@ == old(s)@.push(c),
{
    s.push(c);
}

/// The characters of `s`, one per element.
pub fn str_chars(s: &str) -> (v: Vec<char>)
    ensures
        v@ == s@,
{
    let n = s.unicode_len();
    let mut v: Vec<char> = Vec::new();
    let mut i: usize = 0;
    while i < n
        invariant
            i <= n == s@.len(),
            v@ == s@.take(i as int),
        decreases n - i,
    {
        v.push(s.get_char(i));
        proof {
            assert(s@.take(i as int + 1) =~= s@.take(i as int).push(s@[i as int]));
        }
        i = i + 1;
    }
    proof {
        assert(s@.take(n as int) =~= s@);
    }
    v
}

/// A `String` holding exactly the characters of `v`.
pub fn chars_string(v: &Vec<char>) -> (r: String)
    ensures
        r@ == v@,
{
    let mut r = String::new();
    let mut j: usize = 0;
    while j < v.len()
        invariant
            j <= v@.len(),
            r@ == v@.take(j as int),
        decreases v@.len() - j,
    {
        push_char(&mut r, v[j]);
        proof {
            assert(v@.take(j as int + 1) =~= v@.take(j as int).push(v@[j as int]));
        }
        j = j + 1;
    }
    proof {
        assert(v@.take(v@.len() as int) =~= v@);
    }
    r
}

/// `prefix` followed by `detail`: how a library failure's text is framed.
pub fn prefix_msg(prefix: &str, detail: String) -> (r: String)
    ensures
        r@ == prefix@ + detail@,
{
    let r = String::from_str(prefix);
    r.concat(detail.as_str())
}

/// `m` is `prefix` followed by some detail text: the shape every wrapped
/// library failure takes.
pub open spec fn framed_with(prefix: Seq<char>, m: Seq<char>) -> bool {
    exists|d: Seq<char>| m == prefix + d
}

/// A framed message never collides with a string it already disagrees with
/// inside the frame: when position `i` of `prefix` lies beyond `other` or
/// differs from it, `prefix + d` is not `other`, whatever `d` holds.
pub proof fn lemma_prefix_differs(prefix: Seq<char>, d: Seq<char>, other: Seq<char>, i: int)
    requires
        0 <= i < prefix.len(),
        i >= other.len() || prefix[i] != other[i],
    ensures
        prefix + d != other,
{
    let m = prefix + d;
    assert(m[i] == prefix[i]);
    if m == other {
        assert(m.len() >= prefix.len());
        assert(i < other.len());
        assert(other[i] == m[i]);
        assert(false);
    }
}

proof fn lemma_ltrim_skip(s: Seq<char>, k: int)
    requires
        0 <= k <= s.len(),
        forall|i: int| 0 <= i < k ==> is_space(s[i]),
    ensures
        ltrim(s) == ltrim(s.subrange(k, s.len() as int)),
    decreases k,
{
    if k == 0 {
        assert(s.subrange(0, s.len() as int) =~= s);
    } else {
        let t = s.drop_first();
        assert(is_space(s[0]));
        lemma_ltrim_skip(t, k - 1);
        assert(t.subrange(k - 1, t.len() as int) =~= s.subrange(k, s.len() as int));
    }
}

proof fn lemma_rtrim_skip(s: Seq<char>, m: int)
    requires
        0 <= m <= s.len(),
        forall|i: int| m <= i < s.len() ==> is_space(s[i]),
    ensures
        rtrim(s) == rtrim(s.subrange(0, m)),
    decreases s.len() - m,
{
    if m == s.len() {
        assert(s.subrange(0, s.len() as int) =~= s);
    } else {
        let t = s.drop_last();
        assert(is_space(s[s.len() - 1]));
        lemma_rtrim_skip(t, m);
        assert(t.subrange(0, m) =~= s.subrange(0, m));
    }
}

proof fn lemma_trim_characterization(s: Seq<char>, lo: int, hi: int)
    requires
        0 <= lo <= hi <= s.len(),
        forall|i: int| 0 <= i < lo ==> is_space(s[i]),
        forall|i: int| hi <= i < s.len() ==> is_space(s[i]),
        lo < hi ==> !is_space(s[lo]) && !is_space(s[hi - 1]),
    ensures
        ws_trim(s) == s.subrange(lo, hi),
{
    if lo == hi {
        lemma_ltrim_skip(s, s.len() as int);
        assert(s.subrange(s.len() as int, s.len() as int) =~= Seq::<char>::empty());
        assert(s.subrange(lo, hi) =~= Seq::<char>::empty());
    } else {
        lemma_ltrim_skip(s, lo);
        let t = s.subrange(lo, s.len() as int);
        assert(t[0] == s[lo]);
        assert(ltrim(t) == t);
        lemma_rtrim_skip(t, hi - lo);
        let u = t.subrange(0, hi - lo);
        assert(u =~= s.subrange(lo, hi));
        assert(u[u.len() - 1] == s[hi - 1]);
        assert(rtrim(u) == u);
    }
}

proof fn lemma_strip_snoc(s: Seq<char>, c: char)
    ensures
        strip_nulls(s.push(c)) == strip_nulls(s) + (if c == '\0' {
            Seq::<char>::empty()
        } else {
            seq![c]
        }),
    decreases s.len(),
{
    let tail = if c == '\0' {
        Seq::<char>::empty()
    } else {
        seq![c]
    };
    if s.len() == 0 {
        assert(s.push(c).len() == 1);
        assert(s.push(c)[0] == c);
        assert(s.push(c).drop_first() =~= Seq::<char>::empty());
        if c == '\0' {
            assert(strip_nulls(s.push(c)) == strip_nulls(Seq::<char>::empty()));
            assert(strip_nulls(s.push(c)) =~= strip_nulls(s) + tail);
        } else {
            assert(strip_nulls(s.push(c)) == seq![c] + strip_nulls(Seq::<char>::empty()));
            assert(strip_nulls(s.push(c)) =~= strip_nulls(s) + tail);
        }
    } else {
        assert(s.push(c)[0] == s[0]);
        assert(s.push(c).drop_first() =~= s.drop_first().push(c));
        lemma_strip_snoc(s.drop_first(), c);
        if s[0] == '\0' {
        } else {
            assert(seq![s[0]] + (strip_nulls(s.drop_first()) + tail) =~= (seq![s[0]]
                + strip_nulls(s.drop_first())) + tail);
        }
    }
}

fn trim_bounds(v: &Vec<char>) -> (r: (usize, usize))
    ensures
        r.0 <= r.1 <= v@.len(),
        ws_trim(v@) == v@.subrange(r.0 as int, r.1 as int),
{
    let mut lo: usize = 0;
    while lo < v.len() && is_space_x(v[lo])
        invariant
            lo <= v@.len(),
            forall|i: int| 0 <= i < lo ==> is_space(v@[i]),
        decreases v@.len() - lo,
    {
        lo = lo + 1;
    }
    let mut hi: usize = v.len();
    while hi > lo && is_space_x(v[hi - 1])
        invariant
            lo <= hi <= v@.len(),
            forall|i: int| hi <= i < v@.len() ==> is_space(v@[i]),
        decreases hi,
    {
        hi = hi - 1;
    }
    proof {
        lemma_trim_characterization(v@, lo as int, hi as int);
    }
    (lo, hi)
}

fn strip_nulls_range(v: &Vec<char>, lo: usize, hi: usize) -> (w: Vec<char>)
    requires
        lo <= hi <= v@.len(),
    ensures
        w@ == strip_nulls(v@.subrange(lo as int, hi as int)),
{
    let mut w: Vec<char> = Vec::new();
    let mut i: usize = lo;
    proof {
        assert(v@.subrange(lo as int, lo as int) =~= Seq::<char>::empty());
    }
    while i < hi
        invariant
            lo <= i <= hi <= v@.len(),
            w@ == strip_nulls(v@.subrange(lo as int, i as int)),
        decreases hi - i,
    {
        proof {
            lemma_strip_snoc(v@.subrange(lo as int, i as int), v@[i as int]);
            assert(v@.subrange(lo as int, i as int + 1) =~= v@.subrange(
                lo as int,
                i as int,
            ).push(v@[i as int]));
        }
        if !(v[i] == '\0') {
            w.push(v[i]);
            proof {
                assert(w@ =~= strip_nulls(v@.subrange(lo as int, i as int)) + seq![v@[i as int]]);
            }
        } else {
            proof {
                assert(w@ =~= strip_nulls(v@.subrange(lo as int, i as int))
                    + Seq::<char>::empty());
            }
        }
        i = i + 1;
    }
    w
}

/// Clean a raw tag string: trim white space, drop every embedded NUL
/// character, and trim once more.  Total over all inputs; pure.
pub fn clean_metadata_string(s: &str) -> (r: String)
    ensures
        r@ == norm_spec(s@),
{
    let n = s.unicode_len();
    let mut v: Vec<char> = Vec::new();
    let mut i: usize = 0;
    while i < n
        invariant
            i <= n == s@.len(),
            v@ == s@.take(i as int),
        decreases n - i,
    {
        v.push(s.get_char(i));
        proof {
            assert(s@.take(i as int + 1) =~= s@.take(i as int).push(s@[i as int]));
        }
        i = i + 1;
    }
    proof {
        assert(s@.take(n as int) =~= s@);
    }
    let (lo, hi) = trim_bounds(&v);
    let w = strip_nulls_range(&v, lo, hi);
    let (lo2, hi2) = trim_bounds(&w);
    let mut r = String::new();
    let mut j: usize = lo2;
    proof {
        assert(w@.subrange(lo2 as int, lo2 as int) =~= Seq::<char>::empty());
    }
    while j < hi2
        invariant
            lo2 <= j <= hi2 <= w@.len(),
            r@ == w@.subrange(lo2 as int, j as int),
        decreases hi2 - j,
    {
        push_char(&mut r, w[j]);
        proof {
            assert(w@.subrange(lo2 as int, j as int + 1) =~= w@.subrange(
                lo2 as int,
                j as int,
            ).push(w@[j as int]));
        }
        j = j + 1;
    }
    r
}

proof fn lemma_strip_no_nulls(s: Seq<char>)
    ensures
        no_nulls(strip_nulls(s)),
    decreases s.len(),
{
    if s.len() > 0 {
        lemma_strip_no_nulls(s.drop_first());
    }
}

proof fn lemma_strip_identity(s: Seq<char>)
    requires
        no_nulls(s),
    ensures
        strip_nulls(s) == s,
    decreases s.len(),
{
    if s.len() == 0 {
        assert(strip_nulls(s) =~= s);
    } else {
        lemma_strip_identity(s.drop_first());
        assert(seq![s[0]] + s.drop_first() =~= s);
    }
}

proof fn lemma_ltrim_no_nulls(s: Seq<char>)
    requires
        no_nulls(s),
    ensures
        no_nulls(ltrim(s)),
    decreases s.len(),
{
    if s.len() > 0 && is_space(s[0]) {
        lemma_ltrim_no_nulls(s.drop_first());
    }
}

proof fn lemma_rtrim_no_nulls(s: Seq<char>)
    requires
        no_nulls(s),
    ensures
        no_nulls(rtrim(s)),
    decreases s.len(),
{
    if s.len() > 0 && is_space(s[s.len() - 1]) {
        lemma_rtrim_no_nulls(s.drop_last());
    }
}

proof fn lemma_ltrim_head(s: Seq<char>)
    ensures
        ltrim(s).len() > 0 ==> !is_space(ltrim(s)[0]),
    decreases s.len(),
{
    if s.len() > 0 && is_space(s[0]) {
        lemma_ltrim_head(s.drop_first());
    }
}

proof fn lemma_rtrim_last(s: Seq<char>)
    ensures
        rtrim(s).len() > 0 ==> !is_space(rtrim(s)[rtrim(s).len() - 1]),
    decreases s.len(),
{
    if s.len() > 0 && is_space(s[s.len() - 1]) {
        lemma_rtrim_last(s.drop_last());
    }
}

proof fn lemma_rtrim_prefix(s: Seq<char>)
    ensures
        rtrim(s).len() <= s.len(),
        rtrim(s) == s.subrange(0, rtrim(s).len() as int),
    decreases s.len(),
{
    if s.len() > 0 && is_space(s[s.len() - 1]) {
        lemma_rtrim_prefix(s.drop_last());
        assert(s.drop_last().subrange(0, rtrim(s).len() as int) =~= s.subrange(
            0,
            rtrim(s).len() as int,
        ));
    } else {
        assert(s.subrange(0, s.len() as int) =~= s);
    }
}

proof fn lemma_trim_idempotent(s: Seq<char>)
    ensures
        ws_trim(ws_trim(s)) == ws_trim(s),
{
    let t = ltrim(s);
    lemma_ltrim_head(s);
    lemma_rtrim_prefix(t);
    if rtrim(t).len() > 0 {
        assert(rtrim(t)[0] == t[0]);
        assert(!is_space(rtrim(t)[0]));
    }
    assert(ltrim(rtrim(t)) == rtrim(t));
    lemma_rtrim_last(t);
    assert(rtrim(rtrim(t)) == rtrim(t));
}

proof fn lemma_trim_no_nulls(s: Seq<char>)
    requires
        no_nulls(s),
    ensures
        no_nulls(ws_trim(s)),
{
    lemma_ltrim_no_nulls(s);
    lemma_rtrim_no_nulls(ltrim(s));
}

/// Cleaning is idempotent, removes every NUL character, and leaves no leading
/// or trailing white space.
pub proof fn lemma_normalize_idempotent(s: Seq<char>)
    ensures
        norm_spec(norm_spec(s)) == norm_spec(s),
        no_nulls(norm_spec(s)),
        norm_spec(s).len() > 0 ==> !is_space(norm_spec(s)[0]) && !is_space(
            norm_spec(s)[norm_spec(s).len() - 1],
        ),
{
    let m = norm_spec(s);
    lemma_strip_no_nulls(ws_trim(s));
    lemma_trim_no_nulls(strip_nulls(ws_trim(s)));
    assert(no_nulls(m));
    lemma_trim_idempotent(strip_nulls(ws_trim(s)));
    assert(ws_trim(m) == m);
    lemma_strip_identity(m);
    assert(norm_spec(m) == m);
    lemma_ltrim_head(strip_nulls(ws_trim(s)));
    lemma_rtrim_prefix(ltrim(strip_nulls(ws_trim(s))));
    if m.len() > 0 {
        assert(m[0] == ltrim(strip_nulls(ws_trim(s)))[0]);
    }
    lemma_rtrim_last(ltrim(strip_nulls(ws_trim(s))));
}

} // verus!
