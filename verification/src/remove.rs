//! Removing parts of a name: leading and trailing characters, a range, listed
//! characters and words, text before or after a marker, classes of characters,
//! surrounding white space, a leading dot and repeated spaces.

use vstd::prelude::*;

use crate::folder::opt_chars;
use crate::renamer::{Process, Renamer, RenamerView};
use crate::text::{
    find, find_in, remove_all, remove_all_of, slice_chars, split_at_char, split_on, squeeze_space_runs,
    squeeze_spaces, string_of, trim, trim_chars, views_of, lemma_split_on_len, append_chars, chars_of,
    lemma_find_from, matches_at, chars_within, lemma_remove_all_shrinks, lemma_trim_shrinks,
    lemma_squeeze_spaces,
};

verus! {

/// Options for removing parts of the filename (never the extension).
///
/// - `first_n` - Remove the first n characters from the name.
/// - `last_n` - Remove the last n characters from the name.
/// - `range` - Remove the characters from the first index up to the second (0 indexed).
/// - `characters` - Remove occurrences of the listed characters from the name.
/// - `words` - Remove occurrences of listed words (separated by spaces).
/// - `crop` - Remove any text which occurs before (`true`) or after (`false`) a word.
/// - `digits` - Remove all occurrences of the digits 0-9.
/// - `ascii_high` - Remove the characters from 128 to 255.
/// - `trim` - Remove leading and trailing white space.
/// - `double_space` - Replace runs of spaces with single spaces.
/// - `english_letters` - Remove all characters matching a-zA-Z.
/// - `symbols` - Remove all symbols (~`!@#$%^&*()_-+={}[]|\/?"':;.,<>).
/// - `lead_dots` - Remove a "." from the front of the name.
///
/// A word may hold the wildcard `*`: the text from the first occurrence of the
/// part before it to the end of the first occurrence of the part after it is
/// removed (so `[*]` turns "Hello[ABC] Joe" into "Hello Joe").
#[derive(Debug)]
pub struct RemoveOptions {
    pub first_n: usize,
    pub last_n: usize,
    pub range: (usize, usize),
    pub characters: String,
    pub words: String,
    pub crop: (bool, String),
    pub digits: bool,
    pub ascii_high: bool,
    pub trim: bool,
    pub double_space: bool,
    pub english_letters: bool,
    pub symbols: bool,
    pub lead_dots: bool,
}

impl Clone for RemoveOptions {
    fn clone(&self) -> (r: Self)
        ensures
            r == *self,
    {
        RemoveOptions {
            first_n: self.first_n,
            last_n: self.last_n,
            range: self.range,
            characters: self.characters.clone(),
            words: self.words.clone(),
            crop: (self.crop.0, self.crop.1.clone()),
            digits: self.digits,
            ascii_high: self.ascii_high,
            trim: self.trim,
            double_space: self.double_space,
            english_letters: self.english_letters,
            symbols: self.symbols,
            lead_dots: self.lead_dots,
        }
    }
}

impl Default for RemoveOptions {
    /// Nothing removed; a crop, once given a marker, keeps what follows it.
    fn default() -> (r: Self)
        ensures
            r.first_n == 0 && r.last_n == 0 && r.range == (0usize, 0usize),
            r.characters@.len() == 0 && r.words@.len() == 0,
            r.crop.0 && r.crop.1@.len() == 0,
            !r.digits && !r.ascii_high && !r.trim && !r.double_space,
            !r.english_letters && !r.symbols && !r.lead_dots,
    {
        RemoveOptions {
            first_n: 0,
            last_n: 0,
            range: (0, 0),
            characters: String::new(),
            words: String::new(),
            crop: (true, String::new()),
            digits: false,
            ascii_high: false,
            trim: false,
            double_space: false,
            english_letters: false,
            symbols: false,
            lead_dots: false,
        }
    }
}

/// `s` without the characters listed in `set`.
pub open spec fn without(s: Seq<char>, set: Seq<char>) -> Seq<char> {
    s.filter(|x: char| !set.contains(x))
}

/// The decimal digits.
pub open spec fn digit_set() -> Seq<char> {
    "0123456789"@
}

/// The characters from 128 to 255.
pub open spec fn high_set() -> Seq<char> {
    Seq::new(128, |i: int| (128 + i) as char)
}

/// The English letters A-Z and a-z.
pub open spec fn letter_set() -> Seq<char> {
    Seq::new(26, |i: int| (65 + i) as char) + Seq::new(26, |i: int| (97 + i) as char)
}

/// The symbols that the symbol option removes.
pub open spec fn symbol_set() -> Seq<char> {
    "~`!@#$%^&*()_-+={}[]|\\/?\"':;.,<>"@
}

/// `s` without its first `first` and last `last` characters (empty when they
/// overlap).
pub open spec fn cut_ends(s: Seq<char>, first: nat, last: nat) -> Seq<char> {
    if first + last > s.len() {
        Seq::empty()
    } else {
        s.subrange(first as int, s.len() - last)
    }
}

/// `s` without the characters from `start` up to `end` (bounded by its length).
pub open spec fn cut_range(s: Seq<char>, start: nat, end: nat) -> Seq<char> {
    let stop = if end < s.len() {
        end as int
    } else {
        s.len() as int
    };
    if start < stop {
        s.take(start as int) + s.skip(stop)
    } else {
        s
    }
}

/// `s` after removing `word`, or `None` where the wildcard's end part is found
/// before its start part ends (the range between them would run backwards).
pub open spec fn remove_word_from(s: Seq<char>, word: Seq<char>) -> Option<Seq<char>> {
    if word.contains('*') {
        let w = split_on(word, '*');
        let start = w[0];
        let end = w[1];
        match (find(s, start), find(s, end)) {
            (Some(a), Some(b)) => if b + end.len() < a {
                None
            } else {
                Some(remove_all(s, s.subrange(a, b + end.len())))
            },
            _ => Some(s),
        }
    } else {
        Some(remove_all(s, word))
    }
}

/// `s` after removing each of `words` in turn.
pub open spec fn remove_words_from(s: Seq<char>, words: Seq<Seq<char>>) -> Option<Seq<char>>
    decreases words.len(),
{
    if words.len() == 0 {
        Some(s)
    } else {
        match remove_word_from(s, words[0]) {
            Some(t) => remove_words_from(t, words.drop_first()),
            None => None,
        }
    }
}

/// `s` cut at the first occurrence of `marker`: keeping it and what follows
/// (`before`), or what precedes it and it (`!before`); unchanged if absent.
pub open spec fn crop_at(s: Seq<char>, before: bool, marker: Seq<char>) -> Seq<char> {
    match find(s, marker) {
        Some(p) => if before {
            s.skip(p)
        } else {
            s.take(p + marker.len())
        },
        None => s,
    }
}

/// `s` without a leading dot.
pub open spec fn drop_lead_dot(s: Seq<char>) -> Seq<char> {
    if s.len() > 0 && s[0] == '.' {
        s.drop_first()
    } else {
        s
    }
}

impl RemoveOptions {
    /// The stem after the removals that precede the word removal.
    pub open spec fn before_words(&self, s: Seq<char>) -> Seq<char> {
        let s1 = if self.first_n + self.last_n > 0 {
            cut_ends(s, self.first_n as nat, self.last_n as nat)
        } else {
            s
        };
        let s2 = if self.range.0 < (vstd::utf8::encode_utf8(s1).len() as usize) && self.range.1
            > self.range.0 {
            cut_range(s1, self.range.0 as nat, self.range.1 as nat)
        } else {
            s1
        };
        if self.characters@.len() > 0 {
            without(s2, self.characters@)
        } else {
            s2
        }
    }

    /// The stem after the word removal, or `None` where a wildcard word's range
    /// would run backwards.
    pub open spec fn after_words(&self, s: Seq<char>) -> Option<Seq<char>> {
        if self.words@.len() > 0 {
            remove_words_from(s, split_on(self.words@, ' '))
        } else {
            Some(s)
        }
    }

    /// The stem after the removals that follow the word removal.
    pub open spec fn finished(&self, s: Seq<char>) -> Seq<char> {
        let s5 = if self.crop.1@.len() > 0 {
            crop_at(s, self.crop.0, self.crop.1@)
        } else {
            s
        };
        self.finished_after_crop(s5)
    }

    /// The stem after the removals that follow the crop.
    pub open spec fn finished_after_crop(&self, s5: Seq<char>) -> Seq<char> {
        let s6 = if self.digits {
            without(s5, digit_set())
        } else {
            s5
        };
        let s7 = if self.ascii_high {
            without(s6, high_set())
        } else {
            s6
        };
        let s8 = if self.trim {
            trim(s7)
        } else {
            s7
        };
        let s9 = if self.english_letters {
            without(s8, letter_set())
        } else {
            s8
        };
        let s10 = if self.symbols {
            without(s9, symbol_set())
        } else {
            s9
        };
        let s11 = if self.lead_dots {
            drop_lead_dot(s10)
        } else {
            s10
        };
        if self.double_space {
            squeeze_spaces(s11)
        } else {
            s11
        }
    }

    /// The stem after all removals, or `None` where they cannot be made: the two
    /// end counts overflow, or a wildcard word's range runs backwards.
    pub open spec fn removal(&self, s: Seq<char>) -> Option<Seq<char>> {
        if self.first_n + self.last_n > usize::MAX {
            None
        } else {
            match self.after_words(self.before_words(s)) {
                Some(t) => Some(self.finished(t)),
                None => None,
            }
        }
    }
}

/// Whether no character of `t` is one of `set`.
pub open spec fn none_of(t: Seq<char>, set: Seq<char>) -> bool {
    forall|c: char| t.contains(c) ==> !set.contains(c)
}

/// Removing the first `first` and the last `last` characters keeps the piece
/// between them: the removed head, the result and the removed tail make the
/// stem again, and exactly `first + last` characters go, each count on its own
/// end (so `last` characters go from the end even when `first` is 0). Where
/// the two counts overlap nothing is kept.
pub proof fn lemma_cut_ends_law(s: Seq<char>, first: nat, last: nat)
    ensures
        first + last <= s.len() ==> s.take(first as int) + cut_ends(s, first, last) + s.skip(
            s.len() - last,
        ) == s,
        first + last <= s.len() ==> cut_ends(s, first, last).len() == s.len() - first - last,
        first + last > s.len() ==> cut_ends(s, first, last).len() == 0,
{
    if first + last <= s.len() {
        assert(s.take(first as int) + cut_ends(s, first, last) + s.skip(s.len() - last) =~= s);
    }
}

/// Cutting a range removes exactly the characters from `start` up to `end`
/// (bounded by the stem's length) and keeps those before and after in order.
pub proof fn lemma_cut_range_law(s: Seq<char>, start: nat, end: nat)
    ensures
        ({
            let stop = if end < s.len() {
                end as int
            } else {
                s.len() as int
            };
            &&& start < stop ==> cut_range(s, start, end).len() == s.len() - (stop - start)
            &&& start < stop ==> cut_range(s, start, end).take(start as int) == s.take(start as int)
            &&& start < stop ==> cut_range(s, start, end).skip(start as int) == s.skip(stop)
            &&& start >= stop ==> cut_range(s, start, end) == s
        }),
{
    let stop = if end < s.len() {
        end as int
    } else {
        s.len() as int
    };
    if start < stop {
        let t = cut_range(s, start, end);
        assert(t.take(start as int) =~= s.take(start as int));
        assert(t.skip(start as int) =~= s.skip(stop));
    }
}

/// With no range and no listed characters, the removals before the words take
/// exactly the first `first_n` and the last `last_n` characters off the stem.
pub proof fn lemma_head_cuts_ends(opts: RemoveOptions, s: Seq<char>)
    requires
        opts.range.1 <= opts.range.0,
        opts.characters@.len() == 0,
        opts.first_n + opts.last_n <= s.len(),
    ensures
        s.take(opts.first_n as int) + opts.before_words(s) + s.skip(s.len() - opts.last_n) == s,
        opts.before_words(s).len() == s.len() - opts.first_n - opts.last_n,
{
    lemma_cut_ends_law(s, opts.first_n as nat, opts.last_n as nat);
    if opts.first_n + opts.last_n == 0 {
        assert(s.take(0) + s + s.skip(s.len() as int) =~= s);
    }
}

/// Cropping at the first occurrence of `marker` keeps, for `before`, the
/// marker and all that follows it, and otherwise all that precedes it and the
/// marker; the part removed holds no earlier occurrence. Without an
/// occurrence the stem is kept.
pub proof fn lemma_crop_law(s: Seq<char>, before: bool, marker: Seq<char>)
    ensures
        ({
            let t = crop_at(s, before, marker);
            &&& (forall|j: int| !matches_at(s, marker, j)) ==> t == s
            &&& forall|p: int|
                #![trigger matches_at(s, marker, p)]
                matches_at(s, marker, p) && (forall|j: int| 0 <= j < p ==> !matches_at(s, marker, j))
                    ==> if before {
                    t.len() == s.len() - p && s.take(p) + t == s && t.take(marker.len() as int)
                        == marker
                } else {
                    t.len() == p + marker.len() && t + s.skip(p + marker.len()) == s && t.skip(p)
                        == marker
                }
        }),
{
    lemma_find_from(s, marker, 0);
    let t = crop_at(s, before, marker);
    assert forall|p: int|
        #![trigger matches_at(s, marker, p)]
        matches_at(s, marker, p) && (forall|j: int| 0 <= j < p ==> !matches_at(s, marker, j))
            implies if before {
            t.len() == s.len() - p && s.take(p) + t == s && t.take(marker.len() as int) == marker
        } else {
            t.len() == p + marker.len() && t + s.skip(p + marker.len()) == s && t.skip(p) == marker
        } by {
        match find(s, marker) {
            Some(k) => {
                if k < p {
                    assert(!matches_at(s, marker, k));
                }
                if p < k {
                    assert(!matches_at(s, marker, p));
                }
                assert(k == p);
                if before {
                    assert(s.take(p) + t =~= s);
                    assert(t.take(marker.len() as int) =~= s.subrange(p, p + marker.len()));
                } else {
                    assert(t + s.skip(p + marker.len()) =~= s);
                    assert(t.skip(p) =~= s.subrange(p, p + marker.len()));
                }
            },
            None => {
                assert(!matches_at(s, marker, p));
            },
        }
    }
}

/// Dropping the leading dot removes exactly one '.' from the front, and
/// nothing else.
pub proof fn lemma_lead_dot_law(s: Seq<char>)
    ensures
        s.len() > 0 && s[0] == '.' ==> seq!['.'] + drop_lead_dot(s) == s,
        !(s.len() > 0 && s[0] == '.') ==> drop_lead_dot(s) == s,
{
    if s.len() > 0 && s[0] == '.' {
        assert(seq!['.'] + drop_lead_dot(s) =~= s);
    }
}

/// Dropping listed characters keeps the others in their order: a character
/// added at the end stays exactly when it is not listed.
pub proof fn lemma_without_order(s: Seq<char>, c: char, set: Seq<char>)
    ensures
        without(Seq::empty(), set) == Seq::<char>::empty(),
        without(s.push(c), set) == if set.contains(c) {
            without(s, set)
        } else {
            without(s, set).push(c)
        },
{
    let pred = |x: char| !set.contains(x);
    assert(s.push(c).drop_last() =~= s);
    assert(Seq::<char>::empty().filter(pred) =~= Seq::<char>::empty());
    reveal_with_fuel(Seq::filter, 1);
}

/// Dropping listed characters keeps only characters of the original, none of
/// them listed, and never lengthens it.
pub proof fn lemma_without(s: Seq<char>, set: Seq<char>)
    ensures
        without(s, set).len() <= s.len(),
        chars_within(without(s, set), s),
        none_of(without(s, set), set),
{
    let pred = |x: char| !set.contains(x);
    s.lemma_filter_len(pred);
    assert forall|c: char| without(s, set).contains(c) implies s.contains(c) && !set.contains(c) by {
        s.lemma_filter_contains_rev(pred, c);
        let k = choose|k: int| 0 <= k < without(s, set).len() && without(s, set)[k] == c;
        s.lemma_filter_pred(pred, k);
    }
}

/// Removing a word keeps only characters of the original and never lengthens it.
pub proof fn lemma_remove_word_shrinks(s: Seq<char>, word: Seq<char>)
    requires
        remove_word_from(s, word) is Some,
    ensures
        remove_word_from(s, word).unwrap().len() <= s.len(),
        chars_within(remove_word_from(s, word).unwrap(), s),
{
    if word.contains('*') {
        let w = split_on(word, '*');
        match (find(s, w[0]), find(s, w[1])) {
            (Some(a), Some(b)) => lemma_remove_all_shrinks(s, s.subrange(a, b + w[1].len())),
            _ => {},
        }
    } else {
        lemma_remove_all_shrinks(s, word);
    }
}

/// Removing words keeps only characters of the original and never lengthens it.
pub proof fn lemma_remove_words_shrinks(s: Seq<char>, words: Seq<Seq<char>>)
    requires
        remove_words_from(s, words) is Some,
    ensures
        remove_words_from(s, words).unwrap().len() <= s.len(),
        chars_within(remove_words_from(s, words).unwrap(), s),
    decreases words.len(),
{
    if words.len() > 0 {
        let t = remove_word_from(s, words[0]).unwrap();
        lemma_remove_word_shrinks(s, words[0]);
        lemma_remove_words_shrinks(t, words.drop_first());
    }
}

/// Cropping keeps only characters of the original and never lengthens it.
pub proof fn lemma_crop_shrinks(s: Seq<char>, before: bool, marker: Seq<char>)
    ensures
        crop_at(s, before, marker).len() <= s.len(),
        chars_within(crop_at(s, before, marker), s),
{
    lemma_find_from(s, marker, 0);
    let t = crop_at(s, before, marker);
    match find(s, marker) {
        Some(p) => {
            assert forall|c: char| t.contains(c) implies s.contains(c) by {
                let k = choose|k: int| 0 <= k < t.len() && t[k] == c;
                if before {
                    assert(s[k + p] == c);
                } else {
                    assert(s[k] == c);
                }
            }
        },
        None => {},
    }
}

/// Dropping a leading dot keeps only characters of the original and never
/// lengthens it.
pub proof fn lemma_drop_lead_dot(s: Seq<char>)
    ensures
        drop_lead_dot(s).len() <= s.len(),
        chars_within(drop_lead_dot(s), s),
{
    let t = drop_lead_dot(s);
    assert forall|c: char| t.contains(c) implies s.contains(c) by {
        let k = choose|k: int| 0 <= k < t.len() && t[k] == c;
        if s.len() > 0 && s[0] == '.' {
            assert(s[k + 1] == c);
        } else {
            assert(s[k] == c);
        }
    }
}

/// What is within what is within `s` is within `s`; what is within a sequence
/// without `set` has none of `set`.
proof fn lemma_within_trans(a: Seq<char>, b: Seq<char>, c: Seq<char>, set: Seq<char>)
    ensures
        chars_within(a, b) && chars_within(b, c) ==> chars_within(a, c),
        chars_within(a, b) && none_of(b, set) ==> none_of(a, set),
{
}

impl RemoveOptions {
    /// The removals after the crop keep only characters of their input, never
    /// lengthen it, and leave none of the classes switched on.
    proof fn lemma_finish(&self, s5: Seq<char>)
        ensures
            ({
                let t = self.finished_after_crop(s5);
                &&& t.len() <= s5.len()
                &&& chars_within(t, s5)
                &&& self.digits ==> none_of(t, digit_set())
                &&& self.ascii_high ==> none_of(t, high_set())
                &&& self.english_letters ==> none_of(t, letter_set())
                &&& self.symbols ==> none_of(t, symbol_set())
                &&& self.double_space ==> forall|i: int|
                    0 <= i < t.len() - 1 ==> !(#[trigger] t[i] == ' ' && t[i + 1] == ' ')
            }),
    {
        let s6 = if self.digits { without(s5, digit_set()) } else { s5 };
        lemma_without(s5, digit_set());
        let s7 = if self.ascii_high { without(s6, high_set()) } else { s6 };
        lemma_without(s6, high_set());
        let s8 = if self.trim { trim(s7) } else { s7 };
        lemma_trim_shrinks(s7);
        let s9 = if self.english_letters { without(s8, letter_set()) } else { s8 };
        lemma_without(s8, letter_set());
        let s10 = if self.symbols { without(s9, symbol_set()) } else { s9 };
        lemma_without(s9, symbol_set());
        let s11 = if self.lead_dots { drop_lead_dot(s10) } else { s10 };
        lemma_drop_lead_dot(s10);
        let t = if self.double_space { squeeze_spaces(s11) } else { s11 };
        lemma_squeeze_spaces(s11);
        assert(t == self.finished_after_crop(s5));
        lemma_within_trans(t, s11, s10, digit_set());
        lemma_within_trans(t, s10, s9, digit_set());
        lemma_within_trans(t, s9, s8, digit_set());
        lemma_within_trans(t, s8, s7, digit_set());
        lemma_within_trans(t, s7, s6, digit_set());
        lemma_within_trans(t, s6, s5, digit_set());
        lemma_within_trans(t, s6, s6, digit_set());
        lemma_within_trans(t, s7, s7, high_set());
        lemma_within_trans(t, s9, s9, letter_set());
        lemma_within_trans(t, s10, s10, symbol_set());
    }
}

/// Cutting the ends or a range keeps only characters of the original and never
/// lengthens it.
pub proof fn lemma_cuts_shrink(s: Seq<char>, a: nat, b: nat)
    ensures
        cut_ends(s, a, b).len() <= s.len(),
        chars_within(cut_ends(s, a, b), s),
        cut_range(s, a, b).len() <= s.len(),
        chars_within(cut_range(s, a, b), s),
{
    let t = cut_ends(s, a, b);
    assert forall|c: char| t.contains(c) implies s.contains(c) by {
        let k = choose|k: int| 0 <= k < t.len() && t[k] == c;
        assert(s[k + a] == c);
    }
    let u = cut_range(s, a, b);
    let stop = if b < s.len() {
        b as int
    } else {
        s.len() as int
    };
    assert forall|c: char| u.contains(c) implies s.contains(c) by {
        let k = choose|k: int| 0 <= k < u.len() && u[k] == c;
        if a < stop && k >= a {
            assert(s[k - a + stop] == c);
        } else {
            assert(s[k] == c);
        }
    }
}

impl RemoveOptions {
    /// The removals before the words keep only characters of the stem, never
    /// lengthen it, and leave none of the listed characters.
    proof fn lemma_head(&self, s: Seq<char>)
        ensures
            self.before_words(s).len() <= s.len(),
            chars_within(self.before_words(s), s),
            self.characters@.len() > 0 ==> none_of(self.before_words(s), self.characters@),
    {
        let s1 = if self.first_n + self.last_n > 0 {
            cut_ends(s, self.first_n as nat, self.last_n as nat)
        } else {
            s
        };
        lemma_cuts_shrink(s, self.first_n as nat, self.last_n as nat);
        lemma_cuts_shrink(s1, self.range.0 as nat, self.range.1 as nat);
        let s2 = if self.range.0 < (vstd::utf8::encode_utf8(s1).len() as usize) && self.range.1
            > self.range.0 {
            cut_range(s1, self.range.0 as nat, self.range.1 as nat)
        } else {
            s1
        };
        lemma_without(s2, self.characters@);
        lemma_within_trans(s2, s1, s, self.characters@);
        lemma_within_trans(self.before_words(s), s2, s, self.characters@);
    }
}

/// Removal never lengthens a stem and keeps only characters the stem had.
pub proof fn lemma_removal_shrinks(opts: RemoveOptions, s: Seq<char>)
    requires
        opts.removal(s) is Some,
    ensures
        opts.removal(s).unwrap().len() <= s.len(),
        chars_within(opts.removal(s).unwrap(), s),
{
    let s3 = opts.before_words(s);
    opts.lemma_head(s);
    let s4 = opts.after_words(s3).unwrap();
    if opts.words@.len() > 0 {
        lemma_remove_words_shrinks(s3, split_on(opts.words@, ' '));
    }
    lemma_crop_shrinks(s4, opts.crop.0, opts.crop.1@);
    let s5 = if opts.crop.1@.len() > 0 {
        crop_at(s4, opts.crop.0, opts.crop.1@)
    } else {
        s4
    };
    opts.lemma_finish(s5);
    let t = opts.finished_after_crop(s5);
    lemma_within_trans(t, s5, s4, seq![]);
    lemma_within_trans(t, s4, s3, seq![]);
    lemma_within_trans(t, s3, s, seq![]);
}

/// What a switched-on removal takes away does not come back: the result holds
/// none of the listed characters, no character of a class that is switched on,
/// and, with `double_space`, no two spaces side by side.
pub proof fn lemma_removal_clears(opts: RemoveOptions, s: Seq<char>)
    requires
        opts.removal(s) is Some,
    ensures
        ({
            let t = opts.removal(s).unwrap();
            &&& opts.characters@.len() > 0 ==> none_of(t, opts.characters@)
            &&& opts.digits ==> none_of(t, digit_set())
            &&& opts.ascii_high ==> none_of(t, high_set())
            &&& opts.english_letters ==> none_of(t, letter_set())
            &&& opts.symbols ==> none_of(t, symbol_set())
            &&& opts.double_space ==> forall|i: int|
                0 <= i < t.len() - 1 ==> !(#[trigger] t[i] == ' ' && t[i + 1] == ' ')
        }),
{
    let s3 = opts.before_words(s);
    opts.lemma_head(s);
    let s4 = opts.after_words(s3).unwrap();
    if opts.words@.len() > 0 {
        lemma_remove_words_shrinks(s3, split_on(opts.words@, ' '));
    }
    lemma_crop_shrinks(s4, opts.crop.0, opts.crop.1@);
    let s5 = if opts.crop.1@.len() > 0 {
        crop_at(s4, opts.crop.0, opts.crop.1@)
    } else {
        s4
    };
    opts.lemma_finish(s5);
    let t = opts.finished_after_crop(s5);
    lemma_within_trans(t, s5, s4, opts.characters@);
    lemma_within_trans(t, s4, s3, opts.characters@);
    lemma_within_trans(t, s3, s3, opts.characters@);
}

/// Whether `c` is one of `set`.
fn listed(set: &[char], c: char) -> (r: bool)
    ensures
        r == set@.contains(c),
{
    let mut i: usize = 0;
    while i < set.len()
        invariant
            i <= set.len(),
            forall|k: int| 0 <= k < i ==> set@[k] != c,
        decreases set.len() - i,
    {
        if set[i] == c {
            return true;
        }
        i = i + 1;
    }
    false
}

/// `s` without the characters listed in `set`.
pub(crate) fn strip(s: &[char], set: &[char]) -> (r: Vec<char>)
    ensures
        r@ == without(s@, set@),
{
    let mut out: Vec<char> = Vec::new();
    let mut i: usize = 0;
    assert(s@.take(0) =~= Seq::<char>::empty());
    assert(without(Seq::<char>::empty(), set@) == Seq::<char>::empty()) by {
        reveal(Seq::filter);
    }
    while i < s.len()
        invariant
            i <= s.len(),
            out@ == without(s@.take(i as int), set@),
        decreases s.len() - i,
    {
        proof {
            reveal(Seq::filter);
            let t = s@.take(i + 1);
            assert(t.drop_last() =~= s@.take(i as int));
            assert(t.last() == s@[i as int]);
        }
        if !listed(set, s[i]) {
            out.push(s[i]);
        }
        i = i + 1;
    }
    assert(s@.take(s.len() as int) =~= s@);
    out
}

/// Whether `c` occurs in `s`.
fn has_char(s: &[char], c: char) -> (r: bool)
    ensures
        r == s@.contains(c),
{
    listed(s, c)
}

impl RemoveOptions {
    /// Remove the first `first_n` and last `last_n` characters.
    fn first_last(&self, file: &Vec<char>) -> (r: Vec<char>)
        requires
            self.first_n + self.last_n <= usize::MAX,
        ensures
            r@ == cut_ends(file@, self.first_n as nat, self.last_n as nat),
    {
        if self.first_n + self.last_n > file.len() {
            Vec::new()
        } else {
            let mut end = file.len() - self.last_n;
            if end < self.first_n {
                end = self.first_n;
            }
            slice_chars(file, self.first_n, end)
        }
    }

    /// Remove the characters from `range.0` up to `range.1`.
    fn start_end(&self, file: &Vec<char>) -> (r: Vec<char>)
        ensures
            r@ == cut_range(file@, self.range.0 as nat, self.range.1 as nat),
    {
        let start = self.range.0;
        let end = if self.range.1 < file.len() {
            self.range.1
        } else {
            file.len()
        };
        if start < end {
            let mut out = slice_chars(file, 0, start);
            append_chars(&mut out, &slice_chars(file, end, file.len()));
            assert(file@.subrange(0, start as int) == file@.take(start as int));
            assert(file@.subrange(end as int, file@.len() as int) == file@.skip(end as int));
            out
        } else {
            file.clone()
        }
    }

    /// Remove `word`, which may hold the wildcard `*`.
    fn remove_word(&self, file: &Vec<char>, word: &[char]) -> (r: Option<Vec<char>>)
        ensures
            opt_chars(r) == remove_word_from(file@, word@),
    {
        if has_char(word, '*') {
            let w = split_at_char(word, '*');
            proof {
                lemma_split_on_len(word@, '*');
            }
            let ghost parts = split_on(word@, '*');
            assert(w@[0]@ == parts[0] && w@[1]@ == parts[1]);
            let start = &w[0];
            let end = &w[1];
            match (find_in(file.as_slice(), start.as_slice()), find_in(file.as_slice(), end.as_slice())) {
                (Some(a), Some(b)) => {
                    proof {
                        lemma_find_from(file@, end@, 0);
                        assert(matches_at(file@, end@, b as int));
                    }
                    let flen = file.len();
                    if b + end.len() < a {
                        return None;
                    }
                    let cut = slice_chars(file, a, b + end.len());
                    Some(remove_all_of(file, &cut))
                },
                _ => Some(file.clone()),
            }
        } else {
            Some(remove_all_of(file, word))
        }
    }

    /// Replace every run of spaces with a single space.
    fn remove_double_spaces(&self, file: &Vec<char>) -> (r: Vec<char>)
        ensures
            r@ == squeeze_spaces(file@),
    {
        squeeze_space_runs(file)
    }
}

/// The characters from 128 to 255.
fn high_chars() -> (r: Vec<char>)
    ensures
        r@ == high_set(),
{
    let mut out: Vec<char> = Vec::new();
    let mut i: u8 = 0;
    while i < 128
        invariant
            i <= 128,
            out@.len() == i,
            forall|k: int| 0 <= k < i ==> out@[k] == (128 + k) as char,
        decreases 128 - i,
    {
        let b: u8 = 128 + i;
        out.push(b as char);
        i = i + 1;
    }
    assert(out@ =~= high_set());
    out
}

/// The English letters A-Z and a-z.
fn letter_chars() -> (r: Vec<char>)
    ensures
        r@ == letter_set(),
{
    let mut out: Vec<char> = Vec::new();
    let mut i: u8 = 0;
    while i < 52
        invariant
            i <= 52,
            out@.len() == i,
            forall|k: int| 0 <= k < i && k < 26 ==> out@[k] == (65 + k) as char,
            forall|k: int| 26 <= k < i ==> out@[k] == (97 + (k - 26)) as char,
        decreases 52 - i,
    {
        let b: u8 = if i < 26 {
            65 + i
        } else {
            97 + (i - 26)
        };
        out.push(b as char);
        i = i + 1;
    }
    assert(out@ =~= letter_set());
    out
}

impl Process for RemoveOptions {
    open spec fn applies_to(&self, file: RenamerView) -> bool {
        self.removal(file.stem) is Some
    }

    open spec fn outcome(&self, before: RenamerView, after: RenamerView) -> bool {
        after == before.with_stem(self.removal(before.stem).unwrap())
    }

    fn process(&self, file: &mut Renamer) {
        let stem = file.stem_chars();
        let done = self.removed(&stem).unwrap();
        file.set_stem(string_of(&done));
    }
}

impl RemoveOptions {
    /// `stem` after all removals, or `None` where they cannot be made (the end
    /// counts overflow, or a wildcard word's range runs backwards).
    pub fn removed(&self, stem: &[char]) -> (r: Option<Vec<char>>)
        ensures
            opt_chars(r) == self.removal(stem@),
    {
        if self.first_n > usize::MAX - self.last_n {
            return None;
        }
        let mut cur: Vec<char> = Vec::new();
        append_chars(&mut cur, stem);
        assert(cur@ =~= stem@);
        let head = self.head_steps(cur);
        match self.word_steps(head) {
            Some(words) => {
                let cropped = self.crop_step(words);
                Some(self.tail_steps(cropped))
            },
            None => None,
        }
    }

    /// The end, range and listed-character removals.
    fn head_steps(&self, stem: Vec<char>) -> (r: Vec<char>)
        requires
            self.first_n + self.last_n <= usize::MAX,
        ensures
            r@ == self.before_words(stem@),
    {
        let mut cur = stem;
        if self.first_n + self.last_n > 0 {
            cur = self.first_last(&cur);
        }
        let bytes = string_of(&cur).as_str().len();
        if self.range.0 < bytes && self.range.1 > self.range.0 {
            cur = self.start_end(&cur);
        }
        if !self.characters.as_str().is_empty() {
            let set = chars_of(self.characters.as_str());
            cur = strip(&cur, &set);
        }
        cur
    }

    /// The word removals.
    fn word_steps(&self, stem: Vec<char>) -> (r: Option<Vec<char>>)
        ensures
            opt_chars(r) == self.after_words(stem@),
    {
        let mut cur = stem;
        if !self.words.as_str().is_empty() {
            let words = chars_of(self.words.as_str());
            let parts = split_at_char(&words, ' ');
            let ghost ws = split_on(self.words@, ' ');
            let mut k: usize = 0;
            assert(ws.skip(0) == ws);
            while k < parts.len()
                invariant
                    k <= parts.len(),
                    views_of(parts@) == ws,
                    ws == split_on(self.words@, ' '),
                    self.words@.len() > 0,
                    remove_words_from(cur@, ws.skip(k as int)) == remove_words_from(stem@, ws),
                decreases parts.len() - k,
            {
                assert(ws.skip(k as int)[0] == parts@[k as int]@);
                assert(ws.skip(k as int).drop_first() == ws.skip(k + 1));
                match self.remove_word(&cur, parts[k].as_slice()) {
                    Some(next) => cur = next,
                    None => {
                        assert(remove_words_from(cur@, ws.skip(k as int)) is None);
                        assert(self.after_words(stem@) is None);
                        return None;
                    },
                }
                k = k + 1;
            }
            assert(ws.skip(k as int) =~= Seq::<Seq<char>>::empty());
        }
        Some(cur)
    }

    /// The crop at the marker.
    fn crop_step(&self, stem: Vec<char>) -> (r: Vec<char>)
        ensures
            r@ == (if self.crop.1@.len() > 0 {
                crop_at(stem@, self.crop.0, self.crop.1@)
            } else {
                stem@
            }),
    {
        let mut cur = stem;
        if !self.crop.1.as_str().is_empty() {
            let marker = chars_of(self.crop.1.as_str());
            match find_in(&cur, &marker) {
                Some(p) => {
                    proof {
                        lemma_find_from(cur@, marker@, 0);
                        assert(matches_at(cur@, marker@, p as int));
                    }
                    let clen = cur.len();
                    if self.crop.0 {
                        cur = slice_chars(&cur, p, clen);
                    } else {
                        cur = slice_chars(&cur, 0, p + marker.len());
                    }
                },
                None => {},
            }
        }
        cur
    }

    /// The class, trim, dot and space removals.
    fn tail_steps(&self, stem: Vec<char>) -> (r: Vec<char>)
        ensures
            r@ == self.finished_after_crop(stem@),
    {
        let mut cur = stem;
        if self.digits {
            cur = strip(&cur, &chars_of("0123456789"));
        }
        if self.ascii_high {
            cur = strip(&cur, &high_chars());
        }
        if self.trim {
            cur = trim_chars(&cur);
        }
        if self.english_letters {
            cur = strip(&cur, &letter_chars());
        }
        if self.symbols {
            cur = strip(&cur, &chars_of("~`!@#$%^&*()_-+={}[]|\\/?\"':;.,<>"));
        }
        if self.lead_dots && cur.len() > 0 && cur[0] == '.' {
            let clen = cur.len();
            cur = slice_chars(&cur, 1, clen);
        }
        if self.double_space {
            cur = self.remove_double_spaces(&cur);
        }
        cur
    }
}

} // verus!
