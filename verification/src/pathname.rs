//! File-name handling: basename, extension, case mapping, and the title
//! synthesized from a file name when no embedded title is usable.
//!
//! Case mapping here is ASCII-only, in both directions: a letter outside
//! ASCII passes through unchanged, in the lowered extension that drives
//! classification and suffix stripping as well as in the upper-cased format
//! label.  Every supported format name is ASCII, so classification is
//! unaffected; only the display label of an exotic extension differs from a
//! full Unicode mapping.

use vstd::prelude::*;
use vstd::string::{StrSliceExecFns, StringExecFns};
use crate::text::chars_string;

verus! {

/// The characters after the last `/`; the whole string when it has none.
pub open spec fn basename_spec(p: Seq<char>) -> Seq<char>
    decreases p.len(),
{
    if p.len() == 0 {
        p
    } else if p[p.len() - 1] == '/' {
        Seq::empty()
    } else {
        basename_spec(p.drop_last()).push(p[p.len() - 1])
    }
}

/// The characters after the last `.` of `s`, or `None` when `s` has no `.`.
pub open spec fn after_last_dot(s: Seq<char>) -> Option<Seq<char>>
    decreases s.len(),
{
    if s.len() == 0 {
        None
    } else if s[s.len() - 1] == '.' {
        Some(Seq::empty())
    } else {
        match after_last_dot(s.drop_last()) {
            Some(t) => Some(t.push(s[s.len() - 1])),
            None => None,
        }
    }
}

/// The extension of a file name: what follows its last `.`, except that a
/// name whose only `.` is its first character (a hidden file) has none.
pub open spec fn ext_spec(name: Seq<char>) -> Option<Seq<char>> {
    if name.len() == 0 {
        None
    } else {
        after_last_dot(name.drop_first())
    }
}

/// ASCII lower case; other characters are unchanged.
pub open spec fn lower_char(c: char) -> char {
    if c == 'A' {
        'a'
    } else if c == 'B' {
        'b'
    } else if c == 'C' {
        'c'
    } else if c == 'D' {
        'd'
    } else if c == 'E' {
        'e'
    } else if c == 'F' {
        'f'
    } else if c == 'G' {
        'g'
    } else if c == 'H' {
        'h'
    } else if c == 'I' {
        'i'
    } else if c == 'J' {
        'j'
    } else if c == 'K' {
        'k'
    } else if c == 'L' {
        'l'
    } else if c == 'M' {
        'm'
    } else if c == 'N' {
        'n'
    } else if c == 'O' {
        'o'
    } else if c == 'P' {
        'p'
    } else if c == 'Q' {
        'q'
    } else if c == 'R' {
        'r'
    } else if c == 'S' {
        's'
    } else if c == 'T' {
        't'
    } else if c == 'U' {
        'u'
    } else if c == 'V' {
        'v'
    } else if c == 'W' {
        'w'
    } else if c == 'X' {
        'x'
    } else if c == 'Y' {
        'y'
    } else if c == 'Z' {
        'z'
    } else {
        c
    }
}

/// `s` with every ASCII capital lowered.
pub open spec fn lower_seq(s: Seq<char>) -> Seq<char> {
    s.map_values(|c: char| lower_char(c))
}

/// ASCII upper case; other characters are unchanged.
pub open spec fn upper_char(c: char) -> char {
    if c == 'a' {
        'A'
    } else if c == 'b' {
        'B'
    } else if c == 'c' {
        'C'
    } else if c == 'd' {
        'D'
    } else if c == 'e' {
        'E'
    } else if c == 'f' {
        'F'
    } else if c == 'g' {
        'G'
    } else if c == 'h' {
        'H'
    } else if c == 'i' {
        'I'
    } else if c == 'j' {
        'J'
    } else if c == 'k' {
        'K'
    } else if c == 'l' {
        'L'
    } else if c == 'm' {
        'M'
    } else if c == 'n' {
        'N'
    } else if c == 'o' {
        'O'
    } else if c == 'p' {
        'P'
    } else if c == 'q' {
        'Q'
    } else if c == 'r' {
        'R'
    } else if c == 's' {
        'S'
    } else if c == 't' {
        'T'
    } else if c == 'u' {
        'U'
    } else if c == 'v' {
        'V'
    } else if c == 'w' {
        'W'
    } else if c == 'x' {
        'X'
    } else if c == 'y' {
        'Y'
    } else if c == 'z' {
        'Z'
    } else {
        c
    }
}

/// `s` with every ASCII small letter capitalized.
pub open spec fn upper_seq(s: Seq<char>) -> Seq<char> {
    s.map_values(|c: char| upper_char(c))
}

fn upper_char_x(c: char) -> (r: char)
    ensures
        r == upper_char(c),
{
    let u = c as u32;
    if 97 <= u && u <= 122 {
        if c == 'a' {
            'A'
        } else if c == 'b' {
            'B'
        } else if c == 'c' {
            'C'
        } else if c == 'd' {
            'D'
        } else if c == 'e' {
            'E'
        } else if c == 'f' {
            'F'
        } else if c == 'g' {
            'G'
        } else if c == 'h' {
            'H'
        } else if c == 'i' {
            'I'
        } else if c == 'j' {
            'J'
        } else if c == 'k' {
            'K'
        } else if c == 'l' {
            'L'
        } else if c == 'm' {
            'M'
        } else if c == 'n' {
            'N'
        } else if c == 'o' {
            'O'
        } else if c == 'p' {
            'P'
        } else if c == 'q' {
            'Q'
        } else if c == 'r' {
            'R'
        } else if c == 's' {
            'S'
        } else if c == 't' {
            'T'
        } else if c == 'u' {
            'U'
        } else if c == 'v' {
            'V'
        } else if c == 'w' {
            'W'
        } else if c == 'x' {
            'X'
        } else if c == 'y' {
            'Y'
        } else {
            'Z'
        }
    } else {
        c
    }
}

/// `v` with every ASCII small letter capitalized.
pub fn upper_chars(v: &Vec<char>) -> (r: Vec<char>)
    ensures
        r@ == upper_seq(v@),
{
    let mut r: Vec<char> = Vec::new();
    let mut i: usize = 0;
    proof {
        assert(upper_seq(v@.take(0)) =~= Seq::<char>::empty());
    }
    while i < v.len()
        invariant
            i <= v@.len(),
            r@ == upper_seq(v@.take(i as int)),
        decreases v@.len() - i,
    {
        r.push(upper_char_x(v[i]));
        proof {
            assert(upper_seq(v@.take(i as int + 1)) =~= upper_seq(v@.take(i as int)).push(
                upper_char(v@[i as int]),
            ));
        }
        i = i + 1;
    }
    proof {
        assert(v@.take(v@.len() as int) =~= v@);
    }
    r
}

/// The lower-cased extension of the file name of `p`; empty when there is
/// none.  This is what format classification and suffix stripping use.
pub open spec fn ext_lower_spec(p: Seq<char>) -> Seq<char> {
    match ext_spec(basename_spec(p)) {
        Some(e) => lower_seq(e),
        None => Seq::empty(),
    }
}

/// The file name with the suffix `.<ext>` removed when it ends in exactly
/// that suffix (case-sensitively); the whole file name otherwise.
pub open spec fn title_from_filename(name: Seq<char>, ext: Seq<char>) -> Seq<char> {
    let suf = seq!['.'] + ext;
    if name.len() >= suf.len() && name.subrange(
        name.len() - suf.len(),
        name.len() as int,
    ) == suf {
        name.subrange(0, name.len() - suf.len())
    } else {
        name
    }
}

/// The title synthesized from a file name: the name with its matched
/// extension suffix stripped, or the default display name when even that is
/// empty (a degenerate name such as an empty basename, or one that is
/// nothing but the suffix).
pub open spec fn synthesized_title(name: Seq<char>, ext: Seq<char>) -> Seq<char> {
    if title_from_filename(name, ext).len() == 0 {
        "Unknown File"@
    } else {
        title_from_filename(name, ext)
    }
}

/// The title a track ends up with: the embedded one when present and
/// non-empty, else the one synthesized from the file name.  Never empty.
pub open spec fn resolve_title_spec(
    title: Option<Seq<char>>,
    name: Seq<char>,
    ext: Seq<char>,
) -> Seq<char> {
    match title {
        Some(t) => if t.len() == 0 {
            synthesized_title(name, ext)
        } else {
            t
        },
        None => synthesized_title(name, ext),
    }
}

/// The resolved title is never empty.
pub proof fn lemma_resolve_title_nonempty(title: Option<Seq<char>>, name: Seq<char>, ext: Seq<char>)
    ensures
        resolve_title_spec(title, name, ext).len() > 0,
{
    reveal_strlit("Unknown File");
}

fn lower_char_x(c: char) -> (r: char)
    ensures
        r == lower_char(c),
{
    let u = c as u32;
    if 65 <= u && u <= 90 {
        if c == 'A' {
            'a'
        } else if c == 'B' {
            'b'
        } else if c == 'C' {
            'c'
        } else if c == 'D' {
            'd'
        } else if c == 'E' {
            'e'
        } else if c == 'F' {
            'f'
        } else if c == 'G' {
            'g'
        } else if c == 'H' {
            'h'
        } else if c == 'I' {
            'i'
        } else if c == 'J' {
            'j'
        } else if c == 'K' {
            'k'
        } else if c == 'L' {
            'l'
        } else if c == 'M' {
            'm'
        } else if c == 'N' {
            'n'
        } else if c == 'O' {
            'o'
        } else if c == 'P' {
            'p'
        } else if c == 'Q' {
            'q'
        } else if c == 'R' {
            'r'
        } else if c == 'S' {
            's'
        } else if c == 'T' {
            't'
        } else if c == 'U' {
            'u'
        } else if c == 'V' {
            'v'
        } else if c == 'W' {
            'w'
        } else if c == 'X' {
            'x'
        } else if c == 'Y' {
            'y'
        } else {
            'z'
        }
    } else {
        c
    }
}

/// The file name of `p`: everything after its last path separator.
pub fn basename_chars(p: &Vec<char>) -> (r: Vec<char>)
    ensures
        r@ == basename_spec(p@),
{
    let mut r: Vec<char> = Vec::new();
    let mut i: usize = 0;
    proof {
        assert(p@.take(0) =~= Seq::<char>::empty());
    }
    while i < p.len()
        invariant
            i <= p@.len(),
            r@ == basename_spec(p@.take(i as int)),
        decreases p@.len() - i,
    {
        proof {
            assert(p@.take(i as int + 1).drop_last() =~= p@.take(i as int));
            assert(p@.take(i as int + 1)[i as int] == p@[i as int]);
        }
        if p[i] == '/' {
            r = Vec::new();
        } else {
            r.push(p[i]);
        }
        i = i + 1;
    }
    proof {
        assert(p@.take(p@.len() as int) =~= p@);
    }
    r
}

/// The lower-cased extension of the file name `name`; empty when none.
pub fn ext_lower_chars(name: &Vec<char>) -> (r: Vec<char>)
    ensures
        r@ == match ext_spec(name@) {
            Some(e) => lower_seq(e),
            None => Seq::<char>::empty(),
        },
{
    let mut found = false;
    let mut acc: Vec<char> = Vec::new();
    let mut i: usize = 1;
    proof {
        if name@.len() > 0 {
            assert(name@.drop_first().take(0) =~= Seq::<char>::empty());
        }
    }
    while i < name.len()
        invariant
            name@.len() > 0 ==> 1 <= i <= name@.len(),
            name@.len() == 0 ==> i == 1 && !found && acc@.len() == 0,
            name@.len() > 0 ==> {
                let part = after_last_dot(name@.drop_first().take(i - 1));
                match part {
                    Some(t) => found && acc@ == lower_seq(t),
                    None => !found && acc@.len() == 0,
                }
            },
        decreases name@.len() - i,
    {
        proof {
            let pre = name@.drop_first().take(i - 1);
            assert(name@.drop_first().take(i as int).drop_last() =~= pre);
            assert(name@.drop_first().take(i as int)[i - 1] == name@[i as int]);
            if name@[i as int] != '.' {
                if after_last_dot(pre) is Some {
                    let t = after_last_dot(pre)->Some_0;
                    assert(lower_seq(t.push(name@[i as int])) =~= lower_seq(t).push(
                        lower_char(name@[i as int]),
                    ));
                }
            } else {
                assert(lower_seq(Seq::<char>::empty()) =~= Seq::<char>::empty());
            }
        }
        if name[i] == '.' {
            found = true;
            acc = Vec::new();
        } else if found {
            acc.push(lower_char_x(name[i]));
        }
        i = i + 1;
    }
    proof {
        if name@.len() > 0 {
            assert(name@.drop_first().take(name@.len() - 1) =~= name@.drop_first());
            if after_last_dot(name@.drop_first()) is None {
                assert(acc@ =~= Seq::<char>::empty());
            }
        } else {
            assert(acc@ =~= Seq::<char>::empty());
        }
    }
    acc
}

/// A copy of `v[lo..hi]`.
pub fn copy_range(v: &Vec<char>, lo: usize, hi: usize) -> (r: Vec<char>)
    requires
        lo <= hi <= v@.len(),
    ensures
        r@ == v@.subrange(lo as int, hi as int),
{
    let mut r: Vec<char> = Vec::new();
    let mut i: usize = lo;
    proof {
        assert(v@.subrange(lo as int, lo as int) =~= Seq::<char>::empty());
    }
    while i < hi
        invariant
            lo <= i <= hi <= v@.len(),
            r@ == v@.subrange(lo as int, i as int),
        decreases hi - i,
    {
        r.push(v[i]);
        proof {
            assert(v@.subrange(lo as int, i as int + 1) =~= v@.subrange(
                lo as int,
                i as int,
            ).push(v@[i as int]));
        }
        i = i + 1;
    }
    r
}

/// Strip the suffix `.<ext>` from `name` when it ends in exactly that
/// suffix; otherwise return `name` whole.
pub fn title_from_filename_chars(name: &Vec<char>, ext: &Vec<char>) -> (r: Vec<char>)
    ensures
        r@ == title_from_filename(name@, ext@),
{
    if ext.len() < name.len() {
        let start = name.len() - (ext.len() + 1);
        let mut matched = name[start] == '.';
        let mut k: usize = 0;
        while k < ext.len()
            invariant
                k <= ext@.len(),
                start == name@.len() - (ext@.len() + 1),
                ext@.len() < name@.len(),
                matched == (name@[start as int] == '.' && (forall|j: int|
                    0 <= j < k ==> name@[start + 1 + j] == ext@[j])),
            decreases ext@.len() - k,
        {
            proof {
                assert(start + 1 + k < name@.len());
                assert(name@.len() == name.len());
            }
            if name[start + 1 + k] != ext[k] {
                matched = false;
            }
            k = k + 1;
        }
        proof {
            let suf = seq!['.'] + ext@;
            let sr = name@.subrange(name@.len() - suf.len(), name@.len() as int);
            assert(sr.len() == suf.len());
            if matched {
                assert forall|j: int| 0 <= j < suf.len() implies sr[j] == suf[j] by {
                    if j == 0 {
                        assert(sr[0] == name@[start as int]);
                    } else {
                        assert(sr[j] == name@[start + j]);
                        assert(suf[j] == ext@[j - 1]);
                    }
                }
                assert(sr =~= suf);
            } else {
                if sr == suf {
                    assert(name@[start as int] == sr[0] && sr[0] == suf[0]);
                    assert forall|j: int| 0 <= j < ext@.len() implies name@[start + 1 + j]
                        == ext@[j] by {
                        assert(name@[start + 1 + j] == sr[1 + j]);
                        assert(suf[1 + j] == ext@[j]);
                    }
                    assert(false);
                }
            }
        }
        if matched {
            copy_range(name, 0, start)
        } else {
            proof {
                assert(name@.subrange(0, name@.len() as int) =~= name@);
            }
            copy_range(name, 0, name.len())
        }
    } else {
        proof {
            let suf = seq!['.'] + ext@;
            assert(name@.len() < suf.len());
            assert(name@.subrange(0, name@.len() as int) =~= name@);
        }
        copy_range(name, 0, name.len())
    }
}

/// The synthesized title as a string: the file name with its matched
/// extension suffix stripped, defaulting to a fixed display name when that
/// leaves nothing.
fn synthesize_title(name: &Vec<char>, ext: &Vec<char>) -> (r: String)
    ensures
        r@ == synthesized_title(name@, ext@),
        r@.len() > 0,
{
    proof {
        reveal_strlit("Unknown File");
    }
    let stripped = title_from_filename_chars(name, ext);
    if stripped.len() == 0 {
        String::from_str("Unknown File")
    } else {
        chars_string(&stripped)
    }
}

/// The title for a track: the embedded one when present and non-empty, else
/// the one synthesized from the file name.  Never empty.
pub fn resolve_title(title: Option<String>, name: &Vec<char>, ext: &Vec<char>) -> (r: String)
    ensures
        r@ == resolve_title_spec(
            match title {
                Some(t) => Some(t@),
                None => None,
            },
            name@,
            ext@,
        ),
        r@.len() > 0,
{
    match title {
        Some(t) => {
            if t.as_str().unicode_len() == 0 {
                synthesize_title(name, ext)
            } else {
                t
            }
        },
        None => synthesize_title(name, ext),
    }
}

} // verus!
