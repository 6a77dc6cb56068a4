//! How renamers are ordered and compared: directories first, then by name.

use std::cmp::Ordering;
use vstd::prelude::*;
use vstd::std_specs::cmp::{PartialEqSpecImpl, PartialOrdSpecImpl};

use crate::paths::{path_eq, paths_equal};
use crate::renamer::{Renamer, RenamerView};
use crate::text::{
    append_chars, chars_of, lemma_lex_antisymmetric, lemma_lex_transitive, lex_compare, lex_sign,
};

verus! {

/// The lexicographic order of two character sequences (the order of their
/// UTF-8 encodings, which is how `String`s compare).
pub open spec fn seq_order(a: Seq<char>, b: Seq<char>) -> Ordering {
    let c = lex_sign(a, b);
    if c < 0 {
        Ordering::Less
    } else if c > 0 {
        Ordering::Greater
    } else {
        Ordering::Equal
    }
}

/// The name by which a file (not a directory) is ordered: its stem followed by
/// its extension.
pub open spec fn sort_name(v: RenamerView) -> Seq<char> {
    match v.extension {
        Some(e) => v.stem + e,
        None => v.stem,
    }
}

/// The order of two renamers: directories before files, directories by stem,
/// files by stem and extension together.
pub open spec fn renamer_order(a: RenamerView, b: RenamerView) -> Ordering {
    if a.is_dir && b.is_dir {
        seq_order(a.stem, b.stem)
    } else if a.is_dir {
        Ordering::Less
    } else if b.is_dir {
        Ordering::Greater
    } else {
        seq_order(sort_name(a), sort_name(b))
    }
}

/// The reverse of an ordering.
pub open spec fn flipped(o: Ordering) -> Ordering {
    match o {
        Ordering::Less => Ordering::Greater,
        Ordering::Equal => Ordering::Equal,
        Ordering::Greater => Ordering::Less,
    }
}

/// The order of renamers is a total order: comparing the other way round gives
/// the reverse, it is transitive, and files with the same directory flag
/// compare equal exactly when their ordering names are equal.
pub proof fn lemma_renamer_order(a: RenamerView, b: RenamerView, c: RenamerView)
    ensures
        renamer_order(a, b) == flipped(renamer_order(b, a)),
        renamer_order(a, b) == Ordering::Less && renamer_order(b, c) == Ordering::Less
            ==> renamer_order(a, c) == Ordering::Less,
        a.is_dir && b.is_dir ==> (renamer_order(a, b) == Ordering::Equal) == (a.stem == b.stem),
        !a.is_dir && !b.is_dir ==> (renamer_order(a, b) == Ordering::Equal) == (sort_name(a)
            == sort_name(b)),
{
    lemma_lex_antisymmetric(a.stem, b.stem);
    lemma_lex_antisymmetric(sort_name(a), sort_name(b));
    if renamer_order(a, b) == Ordering::Less && renamer_order(b, c) == Ordering::Less {
        if a.is_dir && b.is_dir && c.is_dir {
            lemma_lex_transitive(a.stem, b.stem, c.stem);
        } else if !a.is_dir && !b.is_dir && !c.is_dir {
            lemma_lex_transitive(sort_name(a), sort_name(b), sort_name(c));
        }
    }
}

/// The lexicographic order of `a` and `b`.
fn compare_chars(a: &[char], b: &[char]) -> (r: Ordering)
    ensures
        r == seq_order(a@, b@),
{
    let c = lex_compare(a, b);
    if c < 0 {
        Ordering::Less
    } else if c > 0 {
        Ordering::Greater
    } else {
        Ordering::Equal
    }
}

impl Renamer {
    /// The name by which a file is ordered.
    fn sort_chars(&self) -> (r: Vec<char>)
        ensures
            r@ == sort_name(self@),
    {
        let mut name = chars_of(self.stem());
        match self.extension() {
            Some(e) => append_chars(&mut name, &chars_of(e)),
            None => {},
        }
        name
    }

    /// Order renamers: directories before files; directories by stem, files by
    /// stem followed by extension.
    pub fn cmp(&self, other: &Self) -> (r: Ordering)
        ensures
            r == renamer_order(self@, other@),
    {
        match (self.is_dir(), other.is_dir()) {
            (true, true) => compare_chars(&chars_of(self.stem()), &chars_of(other.stem())),
            (true, false) => Ordering::Less,
            (false, true) => Ordering::Greater,
            (false, false) => compare_chars(&self.sort_chars(), &other.sort_chars()),
        }
    }
}

impl PartialEq for Renamer {
    fn eq(&self, other: &Self) -> (r: bool) {
        paths_equal(self.original(), other.original())
    }
}

impl PartialEqSpecImpl for Renamer {
    open spec fn obeys_eq_spec() -> bool {
        true
    }

    open spec fn eq_spec(&self, other: &Self) -> bool {
        path_eq(self@.original, other@.original)
    }
}

impl Eq for Renamer {

}

impl PartialOrd for Renamer {
    fn partial_cmp(&self, other: &Self) -> (r: Option<Ordering>) {
        Some(self.cmp(other))
    }
}

impl PartialOrdSpecImpl for Renamer {
    open spec fn obeys_partial_cmp_spec() -> bool {
        true
    }

    open spec fn partial_cmp_spec(&self, other: &Self) -> Option<Ordering> {
        Some(renamer_order(self@, other@))
    }
}

} // verus!
