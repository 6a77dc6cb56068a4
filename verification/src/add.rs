//! Text to add to a name: a prefix, an insertion at a position, a suffix.

use vstd::prelude::*;

use crate::renamer::{Process, Renamer, RenamerView};
use crate::text::string_of;

use crate::replace::is_ascii_upper;
use crate::text::{append_chars, chars_of, slice_chars};

verus! {

/// Text to add to the file name: a prefix, an insertion (position and text), a
/// suffix, and whether to put spaces between words. The insertion goes in
/// first, at its position in the stem (counted from the end when negative,
/// and kept within the stem); then the prefix and suffix. With `word_space` a
/// space is put before each ASCII capital letter that follows a character
/// other than a space.
#[derive(Clone, Debug, PartialEq, Eq)]
pub struct AddOptions {
    pub prefix: Option<String>,
    pub insert: Option<(i32, String)>,
    pub suffix: Option<String>,
    pub word_space: bool,
}

/// Where an insertion at `pos` goes in a stem of `len` characters.
pub open spec fn insert_at(pos: int, len: int) -> int {
    if pos >= 0 {
        if pos < len {
            pos
        } else {
            len
        }
    } else if len + pos > 0 {
        len + pos
    } else {
        0
    }
}

/// The first `n` characters of `s` with word spaces put in.
pub open spec fn spaced_upto(s: Seq<char>, n: int) -> Seq<char>
    decreases n,
{
    if n <= 0 {
        Seq::empty()
    } else {
        spaced_upto(s, n - 1) + if n - 1 > 0 && is_ascii_upper(s[n - 1]) && s[n - 2] != ' ' {
            seq![' ', s[n - 1]]
        } else {
            seq![s[n - 1]]
        }
    }
}

/// The view of an optional text, empty when absent.
pub open spec fn text_or_empty(o: Option<String>) -> Seq<char> {
    match o {
        Some(t) => t@,
        None => Seq::empty(),
    }
}

impl AddOptions {
    /// The stem after the insertion.
    pub open spec fn inserted(&self, stem: Seq<char>) -> Seq<char> {
        match self.insert {
            Some((pos, t)) => {
                let at = insert_at(pos as int, stem.len() as int);
                stem.take(at) + t@ + stem.skip(at)
            },
            None => stem,
        }
    }

    /// The stem after adding.
    pub open spec fn added_stem(&self, stem: Seq<char>) -> Seq<char> {
        let s = text_or_empty(self.prefix) + self.inserted(stem) + text_or_empty(self.suffix);
        if self.word_space {
            spaced_upto(s, s.len() as int)
        } else {
            s
        }
    }
}

/// Without word spaces, adding puts the prefix first and the suffix last, and
/// between them the stem with the inserted text at its position: counted from
/// the start for a position of 0 or more (the end where it lies beyond), and
/// from the end for a negative one (the start where it lies before). The stem
/// itself is kept, in two pieces around the insertion.
pub proof fn lemma_add_law(opts: AddOptions, stem: Seq<char>)
    requires
        !opts.word_space,
    ensures
        ({
            let r = opts.added_stem(stem);
            let pre = text_or_empty(opts.prefix);
            let suf = text_or_empty(opts.suffix);
            &&& r.take(pre.len() as int) == pre
            &&& r.skip(r.len() - suf.len()) == suf
            &&& match opts.insert {
                None => r == pre + stem + suf,
                Some((pos, t)) => exists|at: int|
                    #![trigger stem.take(at)]
                    0 <= at <= stem.len() && (pos >= 0 ==> at == (if pos < stem.len() {
                        pos as int
                    } else {
                        stem.len() as int
                    })) && (pos < 0 ==> at == (if stem.len() + pos > 0 {
                        stem.len() + pos
                    } else {
                        0
                    })) && r == pre + stem.take(at) + t@ + stem.skip(at) + suf,
            }
        }),
{
    let r = opts.added_stem(stem);
    let pre = text_or_empty(opts.prefix);
    let suf = text_or_empty(opts.suffix);
    assert(r.take(pre.len() as int) =~= pre);
    assert(r.skip(r.len() - suf.len()) =~= suf);
    match opts.insert {
        None => {},
        Some((pos, t)) => {
            let at = insert_at(pos as int, stem.len() as int);
            assert(r =~= pre + stem.take(at) + t@ + stem.skip(at) + suf);
        },
    }
}


/// Word spaces change only where an ASCII capital follows another character
/// than a space: a text with no such place is kept, and otherwise each such
/// capital gains one space, so the text grows by exactly the number of places.
pub proof fn lemma_word_space_law(s: Seq<char>, n: int)
    requires
        0 <= n <= s.len(),
    ensures
        spaced_upto(s, n).len() == n + Set::new(
            |i: int| 0 < i < n && is_ascii_upper(s[i]) && s[i - 1] != ' ',
        ).len(),
        (forall|i: int| 0 < i < n ==> !(is_ascii_upper(#[trigger] s[i]) && s[i - 1] != ' '))
            ==> spaced_upto(s, n) == s.take(n),
    decreases n,
{
    let places = Set::new(|i: int| 0 < i < n && is_ascii_upper(s[i]) && s[i - 1] != ' ');
    if n == 0 {
        assert(places =~= Set::<int>::empty());
        assert(s.take(0) =~= Seq::<char>::empty());
    } else {
        lemma_word_space_law(s, n - 1);
        let before = Set::new(|i: int| 0 < i < n - 1 && is_ascii_upper(s[i]) && s[i - 1] != ' ');
        let here = n - 1 > 0 && is_ascii_upper(s[n - 1]) && s[n - 2] != ' ';
        vstd::set_lib::lemma_int_range(0, n - 1);
        assert(before.subset_of(vstd::set_lib::set_int_range(0, n - 1)));
        vstd::set_lib::lemma_len_subset(before, vstd::set_lib::set_int_range(0, n - 1));
        if here {
            assert(places =~= before.insert(n - 1));
            assert(!before.contains(n - 1));
        } else {
            assert(places =~= before);
        }
        if forall|i: int| 0 < i < n ==> !(is_ascii_upper(#[trigger] s[i]) && s[i - 1] != ' ') {
            assert(!here);
            assert(spaced_upto(s, n) =~= s.take(n));
        }
    }
}

/// Append the text of `o`, if any.
fn append_opt(out: &mut Vec<char>, o: &Option<String>)
    ensures
        final(out)@ == old(out)@ + text_or_empty(*o),
{
    match o {
        Some(t) => append_chars(out, &chars_of(t.as_str())),
        None => {
            assert(old(out)@ + Seq::<char>::empty() =~= old(out)@);
        },
    }
}

/// `s` with word spaces put in.
fn spaced(s: &[char]) -> (r: Vec<char>)
    ensures
        r@ == spaced_upto(s@, s@.len() as int),
{
    let mut out: Vec<char> = Vec::new();
    let mut i: usize = 0;
    while i < s.len()
        invariant
            i <= s.len(),
            out@ == spaced_upto(s@, i as int),
        decreases s.len() - i,
    {
        if i > 0 && 'A' <= s[i] && s[i] <= 'Z' && s[i - 1] != ' ' {
            out.push(' ');
            out.push(s[i]);
        } else {
            out.push(s[i]);
        }
        i = i + 1;
        assert(out@ =~= spaced_upto(s@, i as int));
    }
    out
}

impl AddOptions {
    /// The stem after adding.
    pub fn apply(&self, stem: &[char]) -> (r: Vec<char>)
        ensures
            r@ == self.added_stem(stem@),
    {
        let mut s: Vec<char> = Vec::new();
        append_opt(&mut s, &self.prefix);
        match &self.insert {
            Some((pos, t)) => {
                let len = stem.len();
                let at: usize = if *pos >= 0 {
                    if (*pos as usize) < len {
                        *pos as usize
                    } else {
                        len
                    }
                } else {
                    let back: usize = if *pos == i32::MIN {
                        2147483648usize
                    } else {
                        (-*pos) as usize
                    };
                    if back < len {
                        len - back
                    } else {
                        0
                    }
                };
                assert(at == insert_at(*pos as int, len as int));
                append_chars(&mut s, &slice_chars(stem, 0, at));
                append_chars(&mut s, &chars_of(t.as_str()));
                append_chars(&mut s, &slice_chars(stem, at, len));
                assert(stem@.subrange(0, at as int) == stem@.take(at as int));
                assert(stem@.subrange(at as int, len as int) == stem@.skip(at as int));
            },
            None => append_chars(&mut s, stem),
        }
        append_opt(&mut s, &self.suffix);
        assert(s@ =~= text_or_empty(self.prefix) + self.inserted(stem@) + text_or_empty(self.suffix));
        if self.word_space {
            spaced(&s)
        } else {
            s
        }
    }
}

impl Process for AddOptions {
    open spec fn applies_to(&self, file: RenamerView) -> bool {
        true
    }

    open spec fn outcome(&self, before: RenamerView, after: RenamerView) -> bool {
        after == before.with_stem(self.added_stem(before.stem))
    }

    fn process(&self, file: &mut Renamer) {
        let stem = file.stem_chars();
        let out = self.apply(&stem);
        file.set_stem(string_of(&out));
    }
}

} // verus!
