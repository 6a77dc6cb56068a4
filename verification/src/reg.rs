//! Regular-expression replacement.

use vstd::prelude::*;

use crate::renamer::{Process, Renamer, RenamerView};

use crate::renamer::opt_view;
use crate::text::{chars_of, slice_chars, string_of};

verus! {

/// A regular expression, its replacement, and whether the extension takes part.
/// Every match of `exp` is replaced by `rep` (which may name groups, as the
/// `regex` crate expands them). With `extension`, the expression runs over
/// the stem, a dot and the extension, and the result is split again at its
/// last dot (one that is not its first character). An expression that does not
/// compile leaves the name as it is.
#[derive(Clone, Debug, PartialEq, Eq)]
pub struct RegexOptions {
    pub exp: String,
    pub rep: String,
    pub extension: bool,
}

/// What `regex::Regex::new(exp)` followed by `replace_all(text, rep)` gives,
/// or `None` where `exp` does not compile.
pub uninterp spec fn regex_replaced(exp: Seq<char>, rep: Seq<char>, text: Seq<char>) -> Option<
    Seq<char>,
>;

/// Compiles `exp` with `regex::Regex::new` and, where it compiles, replaces
/// every match in `text` by `rep` with `Regex::replace_all`. The compiled
/// expression has no view to name, so both calls stand in this one wrapper;
/// the result is named `regex_replaced`, and nothing more is stated of it.
#[verifier::external_body]
fn regex_replace_all(exp: &str, rep: &str, text: &str) -> (r: Option<String>)
    ensures
        opt_view(r) == regex_replaced(exp@, rep@, text@),
{
    match regex::Regex::new(exp) {
        Ok(re) => Some(re.replace_all(text, rep).into_owned()),
        Err(_) => None,
    }
}

/// The position of the last `c` in `s`, or -1.
pub open spec fn last_index(s: Seq<char>, c: char) -> int
    decreases s.len(),
{
    if s.len() == 0 {
        -1
    } else if s.last() == c {
        s.len() - 1
    } else {
        last_index(s.drop_last(), c)
    }
}

/// The last position of `c` holds `c`, and lies within `s`.
pub proof fn lemma_last_index(s: Seq<char>, c: char)
    ensures
        -1 <= last_index(s, c) < s.len(),
        last_index(s, c) >= 0 ==> s[last_index(s, c)] == c,
    decreases s.len(),
{
    if s.len() > 0 && s.last() != c {
        lemma_last_index(s.drop_last(), c);
    }
}

/// A name split into stem and extension at its last dot, unless that dot is
/// its first character or there is none.
pub open spec fn split_name(t: Seq<char>) -> (Seq<char>, Option<Seq<char>>) {
    let k = last_index(t, '.');
    if k > 0 {
        (t.take(k), Some(t.skip(k + 1)))
    } else {
        (t, None)
    }
}

impl RegexOptions {
    /// The stem and extension after the replacement.
    pub open spec fn regex_name(&self, stem: Seq<char>, ext: Option<Seq<char>>) -> (
        Seq<char>,
        Option<Seq<char>>,
    ) {
        match ext {
            Some(e) if self.extension => match regex_replaced(
                self.exp@,
                self.rep@,
                stem + seq!['.'] + e,
            ) {
                Some(t) => split_name(t),
                None => (stem, ext),
            },
            _ => match regex_replaced(self.exp@, self.rep@, stem) {
                Some(t) => (t, ext),
                None => (stem, ext),
            },
        }
    }

    /// The stem and extension after the replacement.
    pub fn apply(&self, stem: &[char], ext: &Option<Vec<char>>) -> (r: (Vec<char>, Option<Vec<char>>))
        ensures
            (r.0@, opt_seq(r.1)) == self.regex_name(stem@, opt_seq(*ext)),
    {
        match ext {
            Some(e) if self.extension => {
                let mut text: Vec<char> = Vec::new();
                crate::text::append_chars(&mut text, stem);
                text.push('.');
                crate::text::append_chars(&mut text, e);
                assert(text@ =~= stem@ + seq!['.'] + e@);
                match regex_replace_all(self.exp.as_str(), self.rep.as_str(), string_of(&text).as_str()) {
                    Some(t) => split_at_last_dot(&chars_of(t.as_str())),
                    None => (copy_chars(stem), Some(e.clone())),
                }
            },
            _ => match regex_replace_all(self.exp.as_str(), self.rep.as_str(), string_of(stem).as_str()) {
                Some(t) => (chars_of(t.as_str()), clone_opt(ext)),
                None => (copy_chars(stem), clone_opt(ext)),
            },
        }
    }
}

/// The view of an optional character vector.
pub open spec fn opt_seq(o: Option<Vec<char>>) -> Option<Seq<char>> {
    match o {
        Some(v) => Some(v@),
        None => None,
    }
}

fn clone_opt(o: &Option<Vec<char>>) -> (r: Option<Vec<char>>)
    ensures
        opt_seq(r) == opt_seq(*o),
{
    match o {
        Some(v) => Some(v.clone()),
        None => None,
    }
}

/// A copy of `s`.
fn copy_chars(s: &[char]) -> (r: Vec<char>)
    ensures
        r@ == s@,
{
    let r = slice_chars(s, 0, s.len());
    assert(s@.subrange(0, s@.len() as int) =~= s@);
    r
}

/// `t` split at its last dot.
fn split_at_last_dot(t: &[char]) -> (r: (Vec<char>, Option<Vec<char>>))
    ensures
        (r.0@, opt_seq(r.1)) == split_name(t@),
{
    let mut k: usize = t.len();
    assert(t@.take(k as int) =~= t@);
    while k > 0
        invariant
            k <= t.len(),
            last_index(t@, '.') == last_index(t@.take(k as int), '.'),
        decreases k,
    {
        if t[k - 1] == '.' {
            assert(t@.take(k as int).last() == '.');
            if k - 1 > 0 {
                let stem = slice_chars(t, 0, k - 1);
                let ext = slice_chars(t, k, t.len());
                assert(stem@ =~= t@.take(k - 1));
                assert(ext@ =~= t@.skip(k as int));
                return (stem, Some(ext));
            } else {
                return (copy_chars(t), None);
            }
        }
        assert(t@.take(k as int).drop_last() =~= t@.take(k - 1));
        k = k - 1;
    }
    (copy_chars(t), None)
}

impl Process for RegexOptions {
    open spec fn applies_to(&self, file: RenamerView) -> bool {
        true
    }

    open spec fn outcome(&self, before: RenamerView, after: RenamerView) -> bool {
        after == (RenamerView {
            stem: self.regex_name(before.stem, before.extension).0,
            extension: self.regex_name(before.stem, before.extension).1,
            ..before
        })
    }

    fn process(&self, file: &mut Renamer) {
        let stem = file.stem_chars();
        let ext = file.extension_chars();
        let (s, e) = self.apply(&stem, &ext);
        file.set_stem(string_of(&s));
        file.set_extension(
            match &e {
                Some(v) => Some(string_of(v)),
                None => None,
            },
        );
    }
}

} // verus!
