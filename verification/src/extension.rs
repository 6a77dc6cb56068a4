//! Change of the file extension.

use vstd::prelude::*;

use crate::renamer::{Process, Renamer, RenamerView};

use crate::case::{char_lower, char_upper, lower_of, upper_of};
use crate::text::{append_chars, chars_of, string_of};

verus! {

/// What to do with the file extension: keep it, lower, upper or title its
/// case, replace it by a new one, add an extra one after it ("txt" becomes
/// "txt.bak"), or remove it.
#[derive(Clone, Debug, PartialEq, Eq)]
pub enum ExtensionOptions {
    Keep,
    Lower,
    Upper,
    Title,
    New(String),
    Extra(String),
    Remove,
}

impl ExtensionOptions {
    /// What the character at position `i` of the extension `s` becomes.
    pub open spec fn ext_char(&self, s: Seq<char>, i: int) -> Seq<char> {
        match self {
            ExtensionOptions::Lower => char_lower(s[i]),
            ExtensionOptions::Upper => char_upper(s[i]),
            ExtensionOptions::Title => if i == 0 {
                char_upper(s[i])
            } else {
                char_lower(s[i])
            },
            _ => seq![s[i]],
        }
    }

    /// What the first `n` characters of the extension `s` become.
    pub open spec fn ext_upto(&self, s: Seq<char>, n: int) -> Seq<char>
        decreases n,
    {
        if n <= 0 {
            Seq::empty()
        } else {
            self.ext_upto(s, n - 1) + self.ext_char(s, n - 1)
        }
    }

    /// The extension that `ext` becomes.
    pub open spec fn new_extension(&self, ext: Option<Seq<char>>) -> Option<Seq<char>> {
        match self {
            ExtensionOptions::Keep => ext,
            ExtensionOptions::New(t) => Some(t@),
            ExtensionOptions::Extra(t) => Some(
                match ext {
                    Some(e) => e + seq!['.'] + t@,
                    None => t@,
                },
            ),
            ExtensionOptions::Remove => None,
            _ => match ext {
                Some(e) => Some(self.ext_upto(e, e.len() as int)),
                None => None,
            },
        }
    }

    /// The extension with its case changed.
    fn recased(&self, e: &[char]) -> (r: Vec<char>)
        ensures
            r@ == self.ext_upto(e@, e@.len() as int),
    {
        let mut out: Vec<char> = Vec::new();
        let mut i: usize = 0;
        while i < e.len()
            invariant
                i <= e.len(),
                out@ == self.ext_upto(e@, i as int),
            decreases e.len() - i,
        {
            let up = match self {
                ExtensionOptions::Upper => true,
                ExtensionOptions::Title => i == 0,
                _ => false,
            };
            let keep = match self {
                ExtensionOptions::Lower | ExtensionOptions::Upper | ExtensionOptions::Title => false,
                _ => true,
            };
            if keep {
                out.push(e[i]);
            } else if up {
                append_chars(&mut out, &chars_of(upper_of(e[i]).as_str()));
            } else {
                append_chars(&mut out, &chars_of(lower_of(e[i]).as_str()));
            }
            i = i + 1;
            assert(out@ =~= self.ext_upto(e@, i as int));
        }
        out
    }

    /// The extension that `ext` becomes.
    pub fn apply(&self, ext: Option<&str>) -> (r: Option<String>)
        ensures
            match r {
                Some(t) => self.new_extension(
                    match ext {
                        Some(e) => Some(e@),
                        None => None,
                    },
                ) == Some(t@),
                None => self.new_extension(
                    match ext {
                        Some(e) => Some(e@),
                        None => None,
                    },
                ) is None,
            },
    {
        match self {
            ExtensionOptions::Keep => match ext {
                Some(e) => Some(e.to_string()),
                None => None,
            },
            ExtensionOptions::New(t) => Some(t.clone()),
            ExtensionOptions::Extra(t) => match ext {
                Some(e) => {
                    let mut out = chars_of(e);
                    out.push('.');
                    append_chars(&mut out, &chars_of(t.as_str()));
                    Some(string_of(&out))
                },
                None => Some(t.clone()),
            },
            ExtensionOptions::Remove => None,
            _ => match ext {
                Some(e) => Some(string_of(&self.recased(&chars_of(e)))),
                None => None,
            },
        }
    }
}

impl Process for ExtensionOptions {
    open spec fn applies_to(&self, file: RenamerView) -> bool {
        true
    }

    open spec fn outcome(&self, before: RenamerView, after: RenamerView) -> bool {
        after == (RenamerView { extension: self.new_extension(before.extension), ..before })
    }

    fn process(&self, file: &mut Renamer) {
        let ext = file.extension_chars();
        let text: Option<String> = match &ext {
            Some(e) => Some(string_of(e)),
            None => None,
        };
        let out = self.apply(
            match &text {
                Some(t) => Some(t.as_str()),
                None => None,
            },
        );
        file.set_extension(out);
    }
}

} // verus!
