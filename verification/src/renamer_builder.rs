//! Building a `Renamer` with its options chosen one call at a time.

use vstd::prelude::*;

use crate::add::AddOptions;
use crate::case::{Case, CaseOptions};
use crate::date::{DateFormat, DateMode, DateOptions, DateType};
use crate::error::FileError;
use crate::extension::ExtensionOptions;
use crate::folder::{FolderMode, FolderOptions};
use crate::name::NameOptions;
use crate::number::{NumberFormat, NumberMode, NumberOptions};
use crate::paths::{file_stem_of, path_file_stem, path_separator};
use crate::reg::RegexOptions;
use crate::remove::RemoveOptions;
use crate::renamer::{fresh_view, RenameOption, Renamer, RenamerView};
use crate::replace::ReplaceOptions;

verus! {

/// A `Renamer` under construction.
#[derive(Debug)]
pub struct RenamerBuilder {
    renamer: Renamer,
}

/// A removal that can be switched on or off.
#[derive(Clone, Copy, Debug, PartialEq, Eq, Structural, Hash)]
pub enum Toggle {
    AsciiHigh,
    Digits,
    DoubleSpace,
    EnglishLetters,
    LeadDots,
    Symbols,
    Trim,
}

impl View for RenamerBuilder {
    type V = RenamerView;

    closed spec fn view(&self) -> RenamerView {
        self.renamer@
    }
}

impl Default for RenamerBuilder {
    fn default() -> (r: Self)
        ensures
            r@ == Renamer::default_view(),
    {
        RenamerBuilder { renamer: Renamer::default() }
    }
}

/// Whether `t` is among `toggles`.
fn has_toggle(toggles: &Vec<Toggle>, t: Toggle) -> (r: bool)
    ensures
        r == toggles@.contains(t),
{
    let mut i: usize = 0;
    while i < toggles.len()
        invariant
            i <= toggles.len(),
            forall|k: int| 0 <= k < i ==> toggles@[k] != t,
        decreases toggles.len() - i,
    {
        if toggles[i] == t {
            return true;
        }
        i = i + 1;
    }
    false
}

impl RenamerBuilder {
    /// A builder for the file at `path` (a directory when `is_dir`), whose path
    /// must have a file name.
    pub fn new_unchecked(path: &str, is_dir: bool) -> (r: Self)
        requires
            path_file_stem(path@) is Some,
        ensures
            r@ == fresh_view(path@, path_file_stem(path@).unwrap(), true, is_dir, path_separator('\\')),
    {
        RenamerBuilder { renamer: Renamer::new(path, is_dir).unwrap() }
    }

    /// A builder for the file at `path` (a directory when `is_dir`); fails with
    /// `BadStem` when the path has no file name.
    pub fn new(path: &str, is_dir: bool) -> (r: Result<Self, FileError>)
        ensures
            match r {
                Ok(b) => path_file_stem(path@) is Some && b@ == fresh_view(
                    path@,
                    path_file_stem(path@).unwrap(),
                    true,
                    is_dir,
                    path_separator('\\'),
                ),
                Err(e) => path_file_stem(path@) is None && e is BadStem,
            },
    {
        match file_stem_of(path) {
            Some(_) => Ok(RenamerBuilder::new_unchecked(path, is_dir)),
            None => Err(FileError::BadStem),
        }
    }

    /// The renamer built.
    pub fn build(self) -> (r: Renamer)
        ensures
            r@ == self@,
    {
        self.renamer
    }

    /// Choose `option`.
    fn with(self, option: RenameOption) -> (r: Self)
        ensures
            r@ == self@.with_option(option),
    {
        RenamerBuilder { renamer: self.renamer.with_option(option) }
    }

    /// Add a prefix, an insertion and a suffix.
    pub fn with_add(
        self,
        prefix: Option<String>,
        insert: Option<(i32, String)>,
        suffix: Option<String>,
        word_space: bool,
    ) -> (r: Self)
        ensures
            r@ == self@.with_option(RenameOption::Add(AddOptions { prefix, insert, suffix, word_space })),
    {
        self.with(RenameOption::Add(AddOptions { prefix, insert, suffix, word_space }))
    }

    /// Change the case.
    pub fn with_case(self, case: Case, snake: bool, exceptions: String) -> (r: Self)
        ensures
            r@ == self@.with_option(RenameOption::Case(CaseOptions { case, snake, exceptions })),
    {
        self.with(RenameOption::Case(CaseOptions { case, snake, exceptions }))
    }

    /// Add a date.
    pub fn with_date(
        self,
        date_mode: DateMode,
        date_type: DateType,
        fmt: DateFormat,
        sep: String,
        seg: String,
        full_year: bool,
    ) -> (r: Self)
        ensures
            r@ == self@.with_option(
                RenameOption::Date(DateOptions { date_mode, date_type, fmt, sep, seg, full_year }),
            ),
    {
        self.with(RenameOption::Date(DateOptions { date_mode, date_type, fmt, sep, seg, full_year }))
    }

    /// Change the extension.
    pub fn with_extension(self, ext: ExtensionOptions) -> (r: Self)
        ensures
            r@ == self@.with_option(RenameOption::Extension(ext)),
    {
        self.with(RenameOption::Extension(ext))
    }

    /// Add folder names.
    pub fn with_folder(self, mode: FolderMode, sep: String, levels: i32) -> (r: Self)
        ensures
            r@ == self@.with_option(RenameOption::Folder(FolderOptions { mode, sep, levels })),
    {
        self.with(RenameOption::Folder(FolderOptions { mode, sep, levels }))
    }

    /// Replace the name.
    pub fn with_name(self, name: NameOptions) -> (r: Self)
        ensures
            r@ == self@.with_option(RenameOption::Name(name)),
    {
        self.with(RenameOption::Name(name))
    }

    /// Add a number.
    pub fn with_number(
        self,
        mode: NumberMode,
        value: u32,
        pad: usize,
        char: char,
        sep: String,
        format: NumberFormat,
    ) -> (r: Self)
        ensures
            r@ == self@.with_option(
                RenameOption::Number(NumberOptions { mode, value, pad, char, sep, format }),
            ),
    {
        self.with(RenameOption::Number(NumberOptions { mode, value, pad, char, sep, format }))
    }

    /// Replace by a regular expression.
    pub fn with_reg(self, exp: String, rep: String, extension: bool) -> (r: Self)
        ensures
            r@ == self@.with_option(RenameOption::Regex(RegexOptions { exp, rep, extension })),
    {
        self.with(RenameOption::Regex(RegexOptions { exp, rep, extension }))
    }

    /// Remove parts of the name.
    /// ranges: [first_n, last_n, range_start, range_end];
    /// toggles: the removals switched on; crop: before (true) or after (false) the text.
    pub fn with_remove(
        self,
        ranges: [usize; 4],
        characters: String,
        words: String,
        crop: (bool, String),
        toggles: Vec<Toggle>,
    ) -> (r: Self)
        ensures
            r@ == self@.with_option(
                RenameOption::Remove(
                    RemoveOptions {
                        first_n: ranges[0],
                        last_n: ranges[1],
                        range: (ranges[2], ranges[3]),
                        characters,
                        words,
                        crop,
                        digits: toggles@.contains(Toggle::Digits),
                        ascii_high: toggles@.contains(Toggle::AsciiHigh),
                        trim: toggles@.contains(Toggle::Trim),
                        double_space: toggles@.contains(Toggle::DoubleSpace),
                        english_letters: toggles@.contains(Toggle::EnglishLetters),
                        symbols: toggles@.contains(Toggle::Symbols),
                        lead_dots: toggles@.contains(Toggle::LeadDots),
                    },
                ),
            ),
    {
        let first_n = ranges[0];
        let last_n = ranges[1];
        let range = (ranges[2], ranges[3]);
        let opt = RemoveOptions {
            first_n,
            last_n,
            range,
            characters,
            words,
            crop,
            digits: has_toggle(&toggles, Toggle::Digits),
            ascii_high: has_toggle(&toggles, Toggle::AsciiHigh),
            trim: has_toggle(&toggles, Toggle::Trim),
            double_space: has_toggle(&toggles, Toggle::DoubleSpace),
            english_letters: has_toggle(&toggles, Toggle::EnglishLetters),
            symbols: has_toggle(&toggles, Toggle::Symbols),
            lead_dots: has_toggle(&toggles, Toggle::LeadDots),
        };
        self.with(RenameOption::Remove(opt))
    }

    /// Replace text.
    pub fn with_replace(self, replace: String, with: String, case_sensative: bool) -> (r: Self)
        ensures
            r@ == self@.with_option(
                RenameOption::Replace(ReplaceOptions { replace, with, case_sensative }),
            ),
    {
        self.with(RenameOption::Replace(ReplaceOptions { replace, with, case_sensative }))
    }
}

} // verus!
