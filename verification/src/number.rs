//! Sequential numbering: a value written in a chosen base (or as letters),
//! padded, and placed before, after, or inside the stem.

use vstd::prelude::*;

use crate::renamer::{Process, Renamer, RenamerView};
use crate::text::{append_chars, chars_of, slice_chars, string_of};

verus! {

/// Add sequential numbers to the file.
/// - `mode` - Choose between prefix, suffix, or insert at a location (0 indexed).
/// - `value` - The number to write.
/// - `pad` - The minimum number of characters occupied by the number.
/// - `char` - The character used for padding.
/// - `sep` - Characters placed between the old name and the number.
/// - `format` - The base in which the number is written (binary, decimal, hex
///   upper and lower, octal), or ASCII letters A-Z / a-z.
#[derive(Clone, Debug, PartialEq, Eq)]
pub struct NumberOptions {
    pub mode: NumberMode,
    pub value: u32,
    pub pad: usize,
    pub char: char,
    pub sep: String,
    pub format: NumberFormat,
}

/// Select from
/// `NumberMode::Prefix`,
/// `NumberMode::Suffix`, or
/// `NumberMode::Insert(usize)`.
#[derive(Clone, Copy, Debug, PartialEq, Eq)]
pub enum NumberMode {
    Prefix,
    Suffix,
    Insert(usize),
}

/// Select from
/// `NumberFormat:Binary`,
/// `NumberFormat:Decimal`,
/// `NumberFormat:HexUpper`,
/// `NumberFormat:HexLower`,
/// `NumberFormat:Octal`,
/// `NumberFormat:AsciiUpper`, or
/// `NumberFormat:AsciiLower`
#[derive(Clone, Copy, Debug, PartialEq, Eq)]
pub enum NumberFormat {
    Binary,
    Decimal,
    HexUpper,
    HexLower,
    Octal,
    AsciiUpper,
    AsciiLower,
}

impl Default for NumberMode {
    fn default() -> (r: Self)
        ensures
            r == NumberMode::Prefix,
    {
        NumberMode::Prefix
    }
}

impl Default for NumberFormat {
    fn default() -> (r: Self)
        ensures
            r == NumberFormat::Decimal,
    {
        NumberFormat::Decimal
    }
}

impl Default for NumberOptions {
    fn default() -> (r: Self)
        ensures
            r.mode == NumberMode::Prefix,
            r.value == 0,
            r.pad == 0,
            r.char == '\0',
            r.sep@.len() == 0,
            r.format == NumberFormat::Decimal,
    {
        NumberOptions {
            mode: NumberMode::Prefix,
            value: 0,
            pad: 0,
            char: '\0',
            sep: String::new(),
            format: NumberFormat::Decimal,
        }
    }
}

/// The character for digit `d` (below 16); letters above 9 in upper or lower case.
pub open spec fn digit_char(d: nat, upper: bool) -> char {
    if d < 10 {
        (48 + d) as char
    } else if upper {
        (55 + d) as char
    } else {
        (87 + d) as char
    }
}

/// `v` written in base `base` (2 to 16), most significant digit first, with no
/// leading zeros ("0" for zero).
pub open spec fn digits(v: nat, base: nat, upper: bool) -> Seq<char>
    decreases v,
{
    if base < 2 || v < base {
        seq![digit_char(v, upper)]
    } else {
        proof {
            vstd::arithmetic::div_mod::lemma_div_decreases(v as int, base as int);
        }
        digits(v / base, base, upper).push(digit_char(v % base, upper))
    }
}

/// `v` written in bijective base 26 with the letters starting at code point
/// `offset` (1 is the first letter, 26 the last, 27 two first letters; 0 is empty).
pub open spec fn letters(v: nat, offset: nat) -> Seq<char>
    decreases v,
{
    if v == 0 {
        Seq::empty()
    } else {
        letters(((v - 1) as nat) / 26, offset).push((offset + (v - 1) % 26) as char)
    }
}

/// The number `v` written in format `f`, before padding.
pub open spec fn rendered(f: NumberFormat, v: nat) -> Seq<char> {
    match f {
        NumberFormat::Decimal => digits(v, 10, false),
        NumberFormat::Binary => digits(v, 2, false),
        NumberFormat::Octal => digits(v, 8, false),
        NumberFormat::HexUpper => digits(v, 16, true),
        NumberFormat::HexLower => digits(v, 16, false),
        NumberFormat::AsciiLower => letters(v, 97),
        NumberFormat::AsciiUpper => letters(v, 65),
    }
}

/// `r` preceded by copies of `c` so that it is at least `pad` characters long.
pub open spec fn padded(r: Seq<char>, pad: nat, c: char) -> Seq<char> {
    if pad > r.len() {
        Seq::new((pad - r.len()) as nat, |i: int| c) + r
    } else {
        r
    }
}

/// The value of the digit character `c` (0-9, A-F or a-f).
pub open spec fn digit_value(c: char) -> int {
    let u = c as int;
    if u <= 57 {
        u - 48
    } else if u <= 70 {
        u - 55
    } else {
        u - 87
    }
}

/// The number that the digits `s` denote in base `base`.
pub open spec fn value_of(s: Seq<char>, base: nat) -> int
    decreases s.len(),
{
    if s.len() == 0 {
        0
    } else {
        value_of(s.drop_last(), base) * base + digit_value(s.last())
    }
}

/// The number that the letters `s` denote in bijective base 26, the letter at
/// code point `offset` counting 1.
pub open spec fn letters_value(s: Seq<char>, offset: nat) -> int
    decreases s.len(),
{
    if s.len() == 0 {
        0
    } else {
        letters_value(s.drop_last(), offset) * 26 + (s.last() as int - offset + 1)
    }
}

/// A digit character has the value it was made for.
pub proof fn lemma_digit_value(d: nat, upper: bool)
    requires
        d < 16,
    ensures
        digit_value(digit_char(d, upper)) == d,
{
}

/// A number written in base `base` reads back as the same number, and its first
/// digit is not zero unless the number is zero.
pub proof fn lemma_digits_value(v: nat, base: nat, upper: bool)
    requires
        2 <= base <= 16,
    ensures
        value_of(digits(v, base, upper), base) == v,
        digits(v, base, upper).len() >= 1,
        v > 0 ==> digit_value(digits(v, base, upper)[0]) > 0,
    decreases v,
{
    if v < base {
        lemma_digit_value(v, upper);
        let ds = digits(v, base, upper);
        assert(ds == seq![digit_char(v, upper)]);
        assert(ds.drop_last() =~= Seq::<char>::empty());
        assert(value_of(ds.drop_last(), base) == 0);
        assert(value_of(ds, base) == value_of(ds.drop_last(), base) * base + digit_value(ds.last()));
        assert(value_of(ds, base) == v);
    } else {
        vstd::arithmetic::div_mod::lemma_div_decreases(v as int, base as int);
        vstd::arithmetic::div_mod::lemma_fundamental_div_mod(v as int, base as int);
        vstd::arithmetic::div_mod::lemma_mod_pos_bound(v as int, base as int);
        let q = v / base;
        assert(q > 0) by {
            if q == 0 {
                vstd::arithmetic::mul::lemma_mul_basics(base as int);
            }
        }
        lemma_digits_value(q, base, upper);
        lemma_digit_value(v % base, upper);
        let ds = digits(v, base, upper);
        assert(ds.drop_last() == digits(q, base, upper));
        assert(ds[0] == digits(q, base, upper)[0]);
        assert(value_of(ds, base) == value_of(ds.drop_last(), base) * base + digit_value(ds.last()));
        vstd::arithmetic::mul::lemma_mul_is_commutative(q as int, base as int);
        assert(value_of(ds, base) == q * base + v % base);
    }
}

/// A number written in letters reads back as the same number in bijective base
/// 26, and every letter lies among the 26 from `offset`.
pub proof fn lemma_letters_value(v: nat, offset: nat)
    requires
        offset == 65 || offset == 97,
    ensures
        letters_value(letters(v, offset), offset) == v,
        forall|i: int|
            0 <= i < letters(v, offset).len() ==> offset <= (#[trigger] letters(v, offset)[i] as int)
                < offset + 26,
    decreases v,
{
    if v > 0 {
        let w = (v - 1) as nat;
        vstd::arithmetic::div_mod::lemma_fundamental_div_mod(w as int, 26);
        lemma_letters_value(w / 26, offset);
        let ls = letters(v, offset);
        assert(ls.drop_last() == letters(w / 26, offset));
        let d = w % 26;
        assert(ls.last() as int == offset + d);
        assert(letters_value(ls, offset) == (w / 26) * 26 + d + 1);
    }
}

/// The number text is never shorter than the padding asks, and it ends with the
/// number as written in its format.
pub proof fn lemma_padded(r: Seq<char>, pad: nat, c: char)
    ensures
        padded(r, pad, c).len() >= pad,
        padded(r, pad, c).len() >= r.len(),
        padded(r, pad, c).skip(padded(r, pad, c).len() - r.len()) == r,
{
    if pad > r.len() {
        assert(padded(r, pad, c).skip(padded(r, pad, c).len() - r.len()) =~= r);
    } else {
        assert(r.skip(0) =~= r);
    }
}

impl NumberOptions {
    /// The number as it is written into the name.
    pub open spec fn number_text(&self) -> Seq<char> {
        padded(rendered(self.format, self.value as nat), self.pad as nat, self.char)
    }

    /// The separator as it is written into the name: each ':' is replaced by
    /// the number.
    pub open spec fn sep_text(&self) -> Seq<char> {
        colon_replaced(self.sep@, self.number_text())
    }

    /// The stem after numbering `stem`.
    pub open spec fn numbered_stem(&self, stem: Seq<char>) -> Seq<char> {
        let val = self.number_text();
        let sep = self.sep_text();
        match self.mode {
            NumberMode::Prefix => val + sep + stem,
            NumberMode::Suffix => stem + sep + val,
            NumberMode::Insert(idx) => {
                let at = if idx < stem.len() {
                    idx as int
                } else {
                    stem.len() as int
                };
                stem.take(at) + sep + val + sep + stem.skip(at)
            },
        }
    }
}

/// `sep` with each ':' replaced by `val`.
pub open spec fn colon_replaced(sep: Seq<char>, val: Seq<char>) -> Seq<char>
    decreases sep.len(),
{
    if sep.len() == 0 {
        Seq::empty()
    } else {
        colon_replaced(sep.drop_last(), val) + if sep.last() == ':' {
            val
        } else {
            seq![sep.last()]
        }
    }
}

/// A separator without ':' is written as it is.
pub proof fn lemma_colon_free(sep: Seq<char>, val: Seq<char>)
    requires
        !sep.contains(':'),
    ensures
        colon_replaced(sep, val) == sep,
    decreases sep.len(),
{
    if sep.len() > 0 {
        assert(!sep.drop_last().contains(':')) by {
            if sep.drop_last().contains(':') {
                let k = choose|k: int| 0 <= k < sep.drop_last().len() && sep.drop_last()[k] == ':';
                assert(sep[k] == ':');
            }
        }
        lemma_colon_free(sep.drop_last(), val);
        assert(sep[sep.len() - 1] != ':');
        assert(sep.drop_last() + seq![sep.last()] =~= sep);
    }
}

/// `sep` with each ':' replaced by `val`.
fn replace_colons(sep: &[char], val: &[char]) -> (r: Vec<char>)
    ensures
        r@ == colon_replaced(sep@, val@),
{
    let mut out: Vec<char> = Vec::new();
    let mut i: usize = 0;
    while i < sep.len()
        invariant
            i <= sep.len(),
            out@ == colon_replaced(sep@.take(i as int), val@),
        decreases sep.len() - i,
    {
        assert(sep@.take(i + 1).drop_last() =~= sep@.take(i as int));
        if sep[i] == ':' {
            append_chars(&mut out, val);
        } else {
            out.push(sep[i]);
        }
        i = i + 1;
    }
    assert(sep@.take(sep.len() as int) =~= sep@);
    out
}

/// Numbering keeps the stem intact: a prefixed number leaves the stem at the end
/// of the name, a suffixed one at its start, and an inserted one leaves the
/// stem's two halves on either side of the separators and number.
pub proof fn lemma_number_keeps_stem(opt: NumberOptions, stem: Seq<char>)
    ensures
        ({
            let t = opt.numbered_stem(stem);
            let extra = 2 * opt.sep_text().len() + opt.number_text().len();
            match opt.mode {
                NumberMode::Prefix => t.skip(t.len() - stem.len()) == stem,
                NumberMode::Suffix => t.take(stem.len() as int) == stem,
                NumberMode::Insert(idx) => {
                    let at = if idx < stem.len() {
                        idx as int
                    } else {
                        stem.len() as int
                    };
                    t.take(at) + t.skip(at + extra) == stem
                },
            }
        }),
{
    let t = opt.numbered_stem(stem);
    let extra = 2 * opt.sep_text().len() + opt.number_text().len();
    match opt.mode {
        NumberMode::Prefix => assert(t.skip(t.len() - stem.len()) =~= stem),
        NumberMode::Suffix => assert(t.take(stem.len() as int) =~= stem),
        NumberMode::Insert(idx) => {
            let at = if idx < stem.len() {
                idx as int
            } else {
                stem.len() as int
            };
            assert(t.take(at) + t.skip(at + extra) =~= stem);
        },
    }
}

/// The character for digit `d`.
fn digit_of(d: u32, upper: bool) -> (c: char)
    requires
        d < 16,
    ensures
        c == digit_char(d as nat, upper),
{
    let b: u8 = if d < 10 {
        48 + d as u8
    } else if upper {
        55 + d as u8
    } else {
        87 + d as u8
    };
    b as char
}

/// `v` written in base `base`.
fn to_digits(v: u32, base: u32, upper: bool) -> (r: Vec<char>)
    requires
        2 <= base <= 16,
    ensures
        r@ == digits(v as nat, base as nat, upper),
    decreases v,
{
    if v < base {
        let mut r: Vec<char> = Vec::new();
        r.push(digit_of(v, upper));
        r
    } else {
        proof {
            vstd::arithmetic::div_mod::lemma_div_decreases(v as int, base as int);
        }
        let mut r = to_digits(v / base, base, upper);
        r.push(digit_of(v % base, upper));
        r
    }
}

/// `v` written as letters starting at code point `first`.
fn to_letters(v: u32, first: u8) -> (r: Vec<char>)
    requires
        first == 65 || first == 97,
    ensures
        r@ == letters(v as nat, first as nat),
    decreases v,
{
    if v == 0 {
        Vec::new()
    } else {
        let w = v - 1;
        let mut r = to_letters(w / 26, first);
        let b: u8 = (w % 26) as u8 + first;
        r.push(b as char);
        r
    }
}

impl NumberOptions {
    /// The number as it is written into the name: in the chosen base or as
    /// letters, padded on the left with `char` up to `pad` characters.
    pub fn number_value(&self) -> (r: String)
        ensures
            r@ == self.number_text(),
    {
        let replace = match self.format {
            NumberFormat::Decimal => to_digits(self.value, 10, false),
            NumberFormat::Binary => to_digits(self.value, 2, false),
            NumberFormat::Octal => to_digits(self.value, 8, false),
            NumberFormat::HexUpper => to_digits(self.value, 16, true),
            NumberFormat::HexLower => to_digits(self.value, 16, false),
            NumberFormat::AsciiLower => to_letters(self.value, 97),
            NumberFormat::AsciiUpper => to_letters(self.value, 65),
        };
        assert(replace@ == rendered(self.format, self.value as nat));
        if self.pad > replace.len() {
            let mut val: Vec<char> = Vec::new();
            let n = self.pad - replace.len();
            while val.len() < n
                invariant
                    val.len() <= n,
                    forall|i: int| 0 <= i < val.len() ==> val@[i] == self.char,
                decreases n - val.len(),
            {
                val.push(self.char);
            }
            let mut i: usize = 0;
            let ghost front = val@;
            while i < replace.len()
                invariant
                    i <= replace.len(),
                    val@ == front + replace@.take(i as int),
                decreases replace.len() - i,
            {
                val.push(replace[i]);
                i = i + 1;
                assert(replace@.take(i as int) == replace@.take(i - 1).push(replace@[i - 1]));
            }
            assert(replace@.take(replace.len() as int) == replace@);
            assert(front =~= Seq::new((self.pad - replace@.len()) as nat, |i: int| self.char));
            assert(val@ == padded(replace@, self.pad as nat, self.char));
            string_of(&val)
        } else {
            string_of(&replace)
        }
    }
}

impl Process for NumberOptions {
    open spec fn applies_to(&self, file: RenamerView) -> bool {
        true
    }

    open spec fn outcome(&self, before: RenamerView, after: RenamerView) -> bool {
        after == before.with_stem(self.numbered_stem(before.stem))
    }

    fn process(&self, file: &mut Renamer) {
        let stem = file.stem_chars();
        let out = self.apply(&stem);
        file.set_stem(string_of(&out));
    }
}

impl NumberOptions {
    /// The stem after numbering `stem`.
    pub fn apply(&self, stem: &[char]) -> (r: Vec<char>)
        ensures
            r@ == self.numbered_stem(stem@),
    {
        let val = chars_of(self.number_value().as_str());
        let sep = replace_colons(&chars_of(self.sep.as_str()), &val);
        let mut out: Vec<char> = Vec::new();
        match self.mode {
            NumberMode::Prefix => {
                append_chars(&mut out, &val);
                append_chars(&mut out, &sep);
                append_chars(&mut out, stem);
            },
            NumberMode::Suffix => {
                append_chars(&mut out, stem);
                append_chars(&mut out, &sep);
                append_chars(&mut out, &val);
            },
            NumberMode::Insert(idx) => {
                let at = if idx < stem.len() {
                    idx
                } else {
                    stem.len()
                };
                append_chars(&mut out, &slice_chars(stem, 0, at));
                append_chars(&mut out, &sep);
                append_chars(&mut out, &val);
                append_chars(&mut out, &sep);
                append_chars(&mut out, &slice_chars(stem, at, stem.len()));
                assert(stem@.subrange(0, at as int) == stem@.take(at as int));
                assert(stem@.subrange(at as int, stem@.len() as int) == stem@.skip(at as int));
            },
        }
        out
    }
}

} // verus!
