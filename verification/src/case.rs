//! Change of letter case.

use vstd::prelude::*;

use crate::renamer::{Process, Renamer, RenamerView};
use crate::text::string_of;

use crate::text::{append_chars, chars_of, is_white, is_white_space};

verus! {

/// The letter case to give a name.
#[derive(Clone, Copy, Debug, PartialEq, Eq)]
pub enum Case {
    Keep,
    Lower,
    Upper,
    Title,
    Sentence,
}

/// A change of case, whether to use snake case, and characters left as they
/// are. `Title` capitalises the first letter of each word (a word starts the
/// stem or follows white space, '_' or '-') and lowers the rest; `Sentence`
/// capitalises the first character and lowers the rest. With `snake` each
/// space becomes '_'. Characters listed in `exceptions` are left as they are.
#[derive(Clone, Debug, PartialEq, Eq)]
pub struct CaseOptions {
    pub case: Case,
    pub snake: bool,
    pub exceptions: String,
}

/// What `char::to_uppercase` yields for `c`.
pub uninterp spec fn char_upper(c: char) -> Seq<char>;

/// What `char::to_lowercase` yields for `c`.
pub uninterp spec fn char_lower(c: char) -> Seq<char>;

/// Calls `char::to_uppercase` on `c` and collects what it yields. The result
/// is named `char_upper`.
#[verifier::external_body]
pub(crate) fn upper_of(c: char) -> (r: String)
    ensures
        r@ == char_upper(c),
{
    c.to_uppercase().collect()
}

/// Calls `char::to_lowercase` on `c` and collects what it yields. The result
/// is named `char_lower`.
#[verifier::external_body]
pub(crate) fn lower_of(c: char) -> (r: String)
    ensures
        r@ == char_lower(c),
{
    c.to_lowercase().collect()
}

/// Whether position `i` of `s` starts a word.
pub open spec fn word_start(s: Seq<char>, i: int) -> bool {
    i == 0 || is_white_space(s[i - 1]) || s[i - 1] == '_' || s[i - 1] == '-'
}

impl CaseOptions {
    /// What the character at position `i` of `s` becomes.
    pub open spec fn case_char(&self, s: Seq<char>, i: int) -> Seq<char> {
        let c = s[i];
        if self.exceptions@.contains(c) {
            seq![c]
        } else if self.snake && c == ' ' {
            seq!['_']
        } else {
            match self.case {
                Case::Keep => seq![c],
                Case::Lower => char_lower(c),
                Case::Upper => char_upper(c),
                Case::Title => if word_start(s, i) {
                    char_upper(c)
                } else {
                    char_lower(c)
                },
                Case::Sentence => if i == 0 {
                    char_upper(c)
                } else {
                    char_lower(c)
                },
            }
        }
    }

    /// What the first `n` characters of `s` become.
    pub open spec fn cased_upto(&self, s: Seq<char>, n: int) -> Seq<char>
        decreases n,
    {
        if n <= 0 {
            Seq::empty()
        } else {
            self.cased_upto(s, n - 1) + self.case_char(s, n - 1)
        }
    }

    /// The stem after the change of case.
    pub open spec fn cased_stem(&self, stem: Seq<char>) -> Seq<char> {
        self.cased_upto(stem, stem.len() as int)
    }

    /// What the character at position `i` of `s` becomes.
    fn case_char_exec(&self, s: &[char], excepted: &[char], i: usize) -> (r: Vec<char>)
        requires
            i < s.len(),
            excepted@ == self.exceptions@,
        ensures
            r@ == self.case_char(s@, i as int),
    {
        let c = s[i];
        let mut k: usize = 0;
        while k < excepted.len()
            invariant
                k <= excepted.len(),
                excepted@ == self.exceptions@,
                i < s.len(),
                c == s@[i as int],
                forall|j: int| 0 <= j < k ==> excepted@[j] != c,
            decreases excepted.len() - k,
        {
            if excepted[k] == c {
                assert(self.exceptions@[k as int] == c);
                assert(self.exceptions@.contains(c));
                let v = vec![c];
                assert(v@ =~= seq![c]);
                return v;
            }
            k = k + 1;
        }
        assert(!self.exceptions@.contains(c));
        if self.snake && c == ' ' {
            let v = vec!['_'];
            assert(v@ =~= seq!['_']);
            return v;
        }
        let up = match self.case {
            Case::Keep => {
                let v = vec![c];
                assert(v@ =~= seq![c]);
                return v;
            },
            Case::Lower => false,
            Case::Upper => true,
            Case::Title => i == 0 || is_white(s[i - 1]) || s[i - 1] == '_' || s[i - 1] == '-',
            Case::Sentence => i == 0,
        };
        if up {
            chars_of(upper_of(c).as_str())
        } else {
            chars_of(lower_of(c).as_str())
        }
    }

    /// The stem after the change of case.
    pub fn apply(&self, stem: &[char]) -> (r: Vec<char>)
        ensures
            r@ == self.cased_stem(stem@),
    {
        let excepted = chars_of(self.exceptions.as_str());
        let mut out: Vec<char> = Vec::new();
        let mut i: usize = 0;
        while i < stem.len()
            invariant
                i <= stem.len(),
                excepted@ == self.exceptions@,
                out@ == self.cased_upto(stem@, i as int),
            decreases stem.len() - i,
        {
            let piece = self.case_char_exec(stem, &excepted, i);
            append_chars(&mut out, &piece);
            i = i + 1;
        }
        out
    }
}


impl Process for CaseOptions {
    open spec fn applies_to(&self, file: RenamerView) -> bool {
        true
    }

    open spec fn outcome(&self, before: RenamerView, after: RenamerView) -> bool {
        after == before.with_stem(self.cased_stem(before.stem))
    }

    fn process(&self, file: &mut Renamer) {
        let stem = file.stem_chars();
        let out = self.apply(&stem);
        file.set_stem(string_of(&out));
    }
}

/// What each character becomes: a listed exception stays as it is; otherwise,
/// with snake case, a space becomes '_' whatever case is chosen; otherwise
/// the case is kept, lowered or raised (with the first character, or the first
/// of each word for title case, raised and the others lowered).
pub proof fn lemma_case_char_law(opts: CaseOptions, s: Seq<char>, i: int)
    requires
        0 <= i < s.len(),
    ensures
        opts.exceptions@.contains(s[i]) ==> opts.case_char(s, i) == seq![s[i]],
        !opts.exceptions@.contains(s[i]) && opts.snake && s[i] == ' ' ==> opts.case_char(s, i)
            == seq!['_'],
        !opts.exceptions@.contains(s[i]) && !(opts.snake && s[i] == ' ') ==> match opts.case {
            Case::Keep => opts.case_char(s, i) == seq![s[i]],
            Case::Lower => opts.case_char(s, i) == char_lower(s[i]),
            Case::Upper => opts.case_char(s, i) == char_upper(s[i]),
            Case::Title => opts.case_char(s, i) == if i == 0 || is_white_space(s[i - 1]) || s[i
                - 1] == '_' || s[i - 1] == '-' {
                char_upper(s[i])
            } else {
                char_lower(s[i])
            },
            Case::Sentence => opts.case_char(s, i) == if i == 0 {
                char_upper(s[i])
            } else {
                char_lower(s[i])
            },
        },
{
}

/// Keeping the case changes no character but, with snake case, turns each
/// space into '_' (unless a space is listed as an exception): the stem keeps
/// its length and every other character.
pub proof fn lemma_keep_case(opts: CaseOptions, s: Seq<char>)
    requires
        opts.case == Case::Keep,
    ensures
        opts.cased_stem(s).len() == s.len(),
        forall|i: int|
            0 <= i < s.len() ==> #[trigger] opts.cased_stem(s)[i] == if opts.snake && s[i] == ' '
                && !opts.exceptions@.contains(' ') {
                '_'
            } else {
                s[i]
            },
{
    lemma_keep_case_upto(opts, s, s.len() as int);
}

proof fn lemma_keep_case_upto(opts: CaseOptions, s: Seq<char>, n: int)
    requires
        opts.case == Case::Keep,
        0 <= n <= s.len(),
    ensures
        opts.cased_upto(s, n).len() == n,
        forall|i: int|
            0 <= i < n ==> #[trigger] opts.cased_upto(s, n)[i] == if opts.snake && s[i] == ' '
                && !opts.exceptions@.contains(' ') {
                '_'
            } else {
                s[i]
            },
    decreases n,
{
    if n > 0 {
        lemma_keep_case_upto(opts, s, n - 1);
        lemma_case_char_law(opts, s, n - 1);
        let prev = opts.cased_upto(s, n - 1);
        let cur = opts.cased_upto(s, n);
        assert(cur == prev + opts.case_char(s, n - 1));
        assert forall|i: int| 0 <= i < n implies #[trigger] cur[i] == if opts.snake && s[i] == ' '
            && !opts.exceptions@.contains(' ') {
            '_'
        } else {
            s[i]
        } by {
            if i < n - 1 {
                assert(cur[i] == prev[i]);
            } else {
                if opts.exceptions@.contains(s[i]) {
                    assert(cur[i] == s[i]);
                } else {
                    assert(cur[i] == opts.case_char(s, n - 1)[0]);
                }
            }
        }
    }
}

/// Keeping, lowering or raising the case works character by character, in
/// order: the stem made of two pieces becomes the first piece changed followed
/// by the second piece changed.
pub proof fn lemma_case_concat(opts: CaseOptions, a: Seq<char>, b: Seq<char>)
    requires
        opts.case == Case::Keep || opts.case == Case::Lower || opts.case == Case::Upper,
    ensures
        opts.cased_stem(a + b) == opts.cased_stem(a) + opts.cased_stem(b),
{
    lemma_case_prefix(opts, a, b, a.len() as int);
    lemma_case_suffix(opts, a, b, b.len() as int);
}

/// The first `n` characters of `a + b`, for `n` within `a`, change as those of
/// `a` do.
proof fn lemma_case_prefix(opts: CaseOptions, a: Seq<char>, b: Seq<char>, n: int)
    requires
        opts.case == Case::Keep || opts.case == Case::Lower || opts.case == Case::Upper,
        0 <= n <= a.len(),
    ensures
        opts.cased_upto(a + b, n) == opts.cased_upto(a, n),
    decreases n,
{
    if n > 0 {
        lemma_case_prefix(opts, a, b, n - 1);
        assert((a + b)[n - 1] == a[n - 1]);
        assert(opts.case_char(a + b, n - 1) == opts.case_char(a, n - 1));
    }
}

/// The first `a.len() + k` characters of `a + b` change as `a` followed by the
/// first `k` characters of `b`.
proof fn lemma_case_suffix(opts: CaseOptions, a: Seq<char>, b: Seq<char>, k: int)
    requires
        opts.case == Case::Keep || opts.case == Case::Lower || opts.case == Case::Upper,
        0 <= k <= b.len(),
    ensures
        opts.cased_upto(a + b, a.len() + k) == opts.cased_upto(a, a.len() as int) + opts.cased_upto(b, k),
    decreases k,
{
    if k == 0 {
        lemma_case_prefix(opts, a, b, a.len() as int);
        assert(opts.cased_upto(a, a.len() as int) + opts.cased_upto(b, 0) =~= opts.cased_upto(a, a.len() as int));
    } else {
        lemma_case_suffix(opts, a, b, k - 1);
        assert((a + b)[a.len() + k - 1] == b[k - 1]);
        assert(opts.case_char(a + b, a.len() + k - 1) == opts.case_char(b, k - 1));
        assert(opts.cased_upto(a, a.len() as int) + opts.cased_upto(b, k - 1) + opts.case_char(b, k - 1)
            =~= opts.cased_upto(a, a.len() as int) + opts.cased_upto(b, k));
    }
}

} // verus!
