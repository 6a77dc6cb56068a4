//! Replacing the whole stem: keep it, erase it, fix it, or reverse it.

use vstd::prelude::*;

use crate::renamer::{Process, Renamer, RenamerView};
use crate::text::{chars_of, slice_chars, string_of};

verus! {

/// Select from.
/// - `NameOptions::Keep` - Do not change the original file name (default).
/// - `NameOptions::Remove` - Completely erase the name, so later options can rebuild it.
/// - `NameOptions::Fixed` - Use the given name for all selected items.
/// - `NameOptions::Reverse` - Reverse the name, e.g. 12345.txt becomes 54321.txt.
#[derive(Clone, Debug, PartialEq, Eq)]
pub enum NameOptions {
    Keep,
    Remove,
    Fixed(String),
    Reverse,
}

impl Default for NameOptions {
    fn default() -> (r: Self)
        ensures
            r == NameOptions::Keep,
    {
        NameOptions::Keep
    }
}

/// The stem that `opt` makes of `stem`.
pub open spec fn renamed_stem(opt: NameOptions, stem: Seq<char>) -> Seq<char> {
    match opt {
        NameOptions::Keep => stem,
        NameOptions::Remove => Seq::empty(),
        NameOptions::Fixed(x) => x@,
        NameOptions::Reverse => stem.reverse(),
    }
}

/// Reversing a name twice gives it back; keeping a name changes nothing.
pub proof fn lemma_reverse_twice(stem: Seq<char>)
    ensures
        renamed_stem(NameOptions::Reverse, renamed_stem(NameOptions::Reverse, stem)) == stem,
        renamed_stem(NameOptions::Keep, stem) == stem,
{
    assert(stem.reverse().reverse() =~= stem);
}

/// `s` in reverse order.
fn reversed(s: &[char]) -> (r: Vec<char>)
    ensures
        r@ == s@.reverse(),
{
    let mut out: Vec<char> = Vec::new();
    let mut i: usize = s.len();
    while i > 0
        invariant
            i <= s.len(),
            out@.len() == s.len() - i,
            forall|k: int| 0 <= k < out@.len() ==> out@[k] == s@[s.len() - 1 - k],
        decreases i,
    {
        i = i - 1;
        out.push(s[i]);
    }
    assert(out@ =~= s@.reverse());
    out
}

impl Process for NameOptions {
    open spec fn applies_to(&self, file: RenamerView) -> bool {
        true
    }

    open spec fn outcome(&self, before: RenamerView, after: RenamerView) -> bool {
        after == before.with_stem(renamed_stem(*self, before.stem))
    }

    fn process(&self, file: &mut Renamer) {
        let stem = file.stem_chars();
        let out = self.apply(&stem);
        file.set_stem(string_of(&out));
    }
}

impl NameOptions {
    /// The stem this option makes of `stem`.
    pub fn apply(&self, stem: &[char]) -> (r: Vec<char>)
        ensures
            r@ == renamed_stem(*self, stem@),
    {
        match self {
            NameOptions::Keep => slice_chars(stem, 0, stem.len()),
            NameOptions::Remove => Vec::new(),
            NameOptions::Fixed(x) => chars_of(x.as_str()),
            NameOptions::Reverse => reversed(stem),
        }
    }

    /// Every kind of name option, in display order, with an empty fixed name.
    pub fn iter() -> (r: Vec<NameOptions>)
        ensures
            r.len() == 4,
            r[0] == NameOptions::Keep,
            r[1] == NameOptions::Remove,
            r[2] matches NameOptions::Fixed(s) && s@.len() == 0,
            r[3] == NameOptions::Reverse,
    {
        let mut r: Vec<NameOptions> = Vec::new();
        r.push(NameOptions::Keep);
        r.push(NameOptions::Remove);
        r.push(NameOptions::Fixed(String::new()));
        r.push(NameOptions::Reverse);
        r
    }
}

} // verus!
