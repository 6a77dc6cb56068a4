//! Plain text replacement.

use vstd::prelude::*;

use crate::renamer::{Process, Renamer, RenamerView};
use crate::text::string_of;

use crate::text::{append_chars, chars_of};

verus! {

/// Text to replace, its replacement, and whether matching is case sensitive.
/// Every occurrence of `replace` in the stem, from left to right and without
/// overlap, becomes `with`. Without `case_sensative`, ASCII letters match in
/// either case. An empty `replace` changes nothing.
#[derive(Clone, Debug, PartialEq, Eq)]
pub struct ReplaceOptions {
    pub replace: String,
    pub with: String,
    pub case_sensative: bool,
}

/// Whether `c` is an ASCII capital letter.
pub open spec fn is_ascii_upper(c: char) -> bool {
    'A' <= c && c <= 'Z'
}

/// Whether `a` and `b` match: equal, or, when matching ignores case, the same
/// ASCII letter in the other case.
pub open spec fn same_char(a: char, b: char, case_sensitive: bool) -> bool {
    a == b || (!case_sensitive && (
        (is_ascii_upper(a) && b as int == a as int + 32)
        || (is_ascii_upper(b) && a as int == b as int + 32)))
}

/// Whether `p` matches `s` at position `i`.
pub open spec fn matches_here(s: Seq<char>, p: Seq<char>, i: int, cs: bool) -> bool {
    &&& 0 <= i
    &&& i + p.len() <= s.len()
    &&& forall|k: int| 0 <= k < p.len() ==> same_char(#[trigger] s[i + k], p[k], cs)
}

/// `s` with each occurrence of `p` (left to right, without overlap) replaced
/// by `w`; an empty `p` changes nothing.
pub open spec fn replaced(s: Seq<char>, p: Seq<char>, w: Seq<char>, cs: bool) -> Seq<char>
    decreases s.len(),
{
    if p.len() == 0 || s.len() == 0 {
        s
    } else if matches_here(s, p, 0, cs) {
        w + replaced(s.skip(p.len() as int), p, w, cs)
    } else {
        seq![s[0]] + replaced(s.skip(1), p, w, cs)
    }
}

impl ReplaceOptions {
    /// The stem after the replacement.
    pub open spec fn replaced_stem(&self, stem: Seq<char>) -> Seq<char> {
        replaced(stem, self.replace@, self.with@, self.case_sensative)
    }
}

/// Whether `a` and `b` match.
fn same_char_exec(a: char, b: char, cs: bool) -> (r: bool)
    ensures
        r == same_char(a, b, cs),
{
    if a == b {
        return true;
    }
    if cs {
        return false;
    }
    let x: u32 = a as u32;
    let y: u32 = b as u32;
    ('A' <= a && a <= 'Z' && y == x + 32) || ('A' <= b && b <= 'Z' && x == y + 32)
}

/// Whether `p` matches `s` at `i`.
fn match_here(s: &[char], p: &[char], i: usize, cs: bool) -> (r: bool)
    requires
        i <= s.len(),
    ensures
        r == matches_here(s@, p@, i as int, cs),
{
    if p.len() > s.len() - i {
        return false;
    }
    let mut k: usize = 0;
    while k < p.len()
        invariant
            k <= p.len(),
            i + p.len() <= s.len(),
            forall|j: int| 0 <= j < k ==> same_char(#[trigger] s@[i + j], p@[j], cs),
        decreases p.len() - k,
    {
        if !same_char_exec(s[i + k], p[k], cs) {
            return false;
        }
        k = k + 1;
    }
    true
}

proof fn lemma_match_shift(s: Seq<char>, p: Seq<char>, i: int, cs: bool)
    requires
        0 <= i <= s.len(),
    ensures
        matches_here(s, p, i, cs) == matches_here(s.skip(i), p, 0, cs),
{
    let t = s.skip(i);
    if matches_here(s, p, i, cs) {
        assert forall|k: int| 0 <= k < p.len() implies same_char(#[trigger] t[0 + k], p[k], cs) by {
            assert(t[0 + k] == s[i + k]);
        }
    }
    if matches_here(t, p, 0, cs) {
        assert forall|k: int| 0 <= k < p.len() implies same_char(#[trigger] s[i + k], p[k], cs) by {
            assert(t[0 + k] == s[i + k]);
        }
    }
}

/// Replacing a text by itself, matching case, changes nothing.
pub proof fn lemma_replace_by_itself(s: Seq<char>, p: Seq<char>)
    ensures
        replaced(s, p, p, true) == s,
    decreases s.len(),
{
    if p.len() == 0 || s.len() == 0 {
    } else if matches_here(s, p, 0, true) {
        assert(s.take(p.len() as int) =~= p) by {
            assert forall|k: int| 0 <= k < p.len() implies s.take(p.len() as int)[k] == p[k] by {
                assert(same_char(s[0 + k], p[k], true));
            }
        }
        lemma_replace_by_itself(s.skip(p.len() as int), p);
        assert(p + s.skip(p.len() as int) =~= s);
    } else {
        lemma_replace_by_itself(s.skip(1), p);
        assert(seq![s[0]] + s.skip(1) =~= s);
    }
}

/// A stem in which the text does not occur is left as it is.
pub proof fn lemma_replace_absent(s: Seq<char>, p: Seq<char>, w: Seq<char>, cs: bool)
    requires
        forall|i: int| 0 <= i < s.len() ==> !matches_here(s, p, i, cs),
    ensures
        replaced(s, p, w, cs) == s,
    decreases s.len(),
{
    if p.len() == 0 || s.len() == 0 {
    } else {
        assert(!matches_here(s, p, 0, cs));
        let t = s.skip(1);
        assert forall|i: int| 0 <= i < t.len() implies !matches_here(t, p, i, cs) by {
            lemma_match_shift(s, p, i + 1, cs);
            lemma_match_shift(t, p, i, cs);
            assert(s.skip(i + 1) =~= t.skip(i));
            assert(!matches_here(s, p, i + 1, cs));
        }
        lemma_replace_absent(t, p, w, cs);
        assert(seq![s[0]] + t =~= s);
    }
}

/// An occurrence at the start is replaced, and the rest of the stem is
/// handled after it: the result starts with the replacement.
pub proof fn lemma_replace_front(s: Seq<char>, p: Seq<char>, w: Seq<char>, cs: bool)
    requires
        p.len() > 0,
        matches_here(s, p, 0, cs),
    ensures
        replaced(s, p, w, cs) == w + replaced(s.skip(p.len() as int), p, w, cs),
        replaced(s, p, w, cs).take(w.len() as int) == w,
{
    assert((w + replaced(s.skip(p.len() as int), p, w, cs)).take(w.len() as int) =~= w);
}

impl ReplaceOptions {
    /// The stem after the replacement.
    pub fn apply(&self, stem: &[char]) -> (r: Vec<char>)
        ensures
            r@ == self.replaced_stem(stem@),
    {
        let p = chars_of(self.replace.as_str());
        let w = chars_of(self.with.as_str());
        let cs = self.case_sensative;
        let mut out: Vec<char> = Vec::new();
        if p.len() == 0 {
            append_chars(&mut out, stem);
            return out;
        }
        let mut i: usize = 0;
        assert(stem@.skip(0) =~= stem@);
        while i < stem.len()
            invariant
                i <= stem.len(),
                p@ == self.replace@,
                w@ == self.with@,
                cs == self.case_sensative,
                p.len() > 0,
                out@ + replaced(stem@.skip(i as int), p@, w@, cs) == replaced(stem@, p@, w@, cs),
            decreases stem.len() - i,
        {
            let ghost rest = stem@.skip(i as int);
            proof {
                lemma_match_shift(stem@, p@, i as int, cs);
            }
            if match_here(stem, &p, i, cs) {
                proof {
                    assert(rest.skip(p.len() as int) =~= stem@.skip(i + p.len()));
                    assert(out@ + w@ + replaced(stem@.skip(i + p.len()), p@, w@, cs) =~= out@
                        + replaced(rest, p@, w@, cs));
                }
                append_chars(&mut out, &w);
                i = i + p.len();
            } else {
                proof {
                    assert(rest.skip(1) =~= stem@.skip(i + 1));
                    assert(rest[0] == stem@[i as int]);
                    assert(out@.push(stem@[i as int]) + replaced(stem@.skip(i + 1), p@, w@, cs)
                        =~= out@ + replaced(rest, p@, w@, cs));
                }
                out.push(stem[i]);
                i = i + 1;
            }
        }
        assert(stem@.skip(i as int).len() == 0);
        assert(out@ + replaced(stem@.skip(i as int), p@, w@, cs) =~= out@);
        out
    }
}

impl Process for ReplaceOptions {
    open spec fn applies_to(&self, file: RenamerView) -> bool {
        true
    }

    open spec fn outcome(&self, before: RenamerView, after: RenamerView) -> bool {
        after == before.with_stem(self.replaced_stem(before.stem))
    }

    fn process(&self, file: &mut Renamer) {
        let stem = file.stem_chars();
        let out = self.apply(&stem);
        file.set_stem(string_of(&out));
    }
}

} // verus!
