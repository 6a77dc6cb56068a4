//! The file being renamed: its original stem and extension, the options chosen
//! for it, and the name they produce.

use vstd::prelude::*;

use crate::add::AddOptions;
use crate::case::CaseOptions;
use crate::date::DateOptions;
use crate::extension::ExtensionOptions;
use crate::folder::FolderOptions;
use crate::name::NameOptions;
use crate::number::NumberOptions;
use crate::reg::RegexOptions;
use crate::remove::RemoveOptions;
use crate::replace::ReplaceOptions;
use crate::date::{DateStamp, DateType};
use crate::error::FileError;
use crate::reg::{lemma_last_index, last_index, opt_seq};
use crate::name::renamed_stem;
use crate::paths::{
    components_of, extension_of, file_stem_of, has_no_separator, is_separator, path_components,
    path_extension, path_separator, separator_free,
    path_file_stem, file_name,
};
use crate::text::{append_chars, chars_of, string_of};

verus! {

/// The view of an optional string.
pub open spec fn opt_view(o: Option<String>) -> Option<Seq<char>> {
    match o {
        Some(s) => Some(s@),
        None => None,
    }
}

/// A rename option that rewrites a file's name.
pub trait Process {
    /// Whether the option can be applied to a file in state `file`.
    spec fn applies_to(&self, file: RenamerView) -> bool;

    /// Whether `after` is a state that applying the option to `before` produces.
    spec fn outcome(&self, before: RenamerView, after: RenamerView) -> bool;

    /// Apply the option to `file`.
    fn process(&self, file: &mut Renamer)
        requires
            self.applies_to(old(file)@),
        ensures
            self.outcome(old(file)@, final(file)@),
    ;
}

/// Tool to rename a single file: its original stem and extension, the options
/// chosen for it (applied in a fixed order), and the name they produce.
#[derive(Clone, Debug)]
pub struct Renamer {
    pub(crate) stem: String,
    pub(crate) renamed: String,
    pub(crate) original: String,
    pub(crate) valid_original: bool,
    pub(crate) extension: Option<String>,
    pub(crate) add: Option<AddOptions>,
    pub(crate) case: Option<CaseOptions>,
    pub(crate) date: Option<DateOptions>,
    pub(crate) ext: Option<ExtensionOptions>,
    pub(crate) folder: Option<FolderOptions>,
    pub(crate) name: Option<NameOptions>,
    pub(crate) number: Option<NumberOptions>,
    pub(crate) regex: Option<RegexOptions>,
    pub(crate) remove: Option<RemoveOptions>,
    pub(crate) replace: Option<ReplaceOptions>,
    pub(crate) is_dir: bool,
    pub(crate) windows_paths: bool,
    pub(crate) reverted_stem: String,
    pub(crate) reverted_extension: Option<String>,
}

/// The state of a `Renamer`, with strings seen as character sequences.
pub struct RenamerView {
    pub stem: Seq<char>,
    pub renamed: Seq<char>,
    pub original: Seq<char>,
    pub valid_original: bool,
    pub extension: Option<Seq<char>>,
    pub add: Option<AddOptions>,
    pub case: Option<CaseOptions>,
    pub date: Option<DateOptions>,
    pub ext: Option<ExtensionOptions>,
    pub folder: Option<FolderOptions>,
    pub name: Option<NameOptions>,
    pub number: Option<NumberOptions>,
    pub regex: Option<RegexOptions>,
    pub remove: Option<RemoveOptions>,
    pub replace: Option<ReplaceOptions>,
    pub is_dir: bool,
    pub windows_paths: bool,
    pub reverted_stem: Seq<char>,
    pub reverted_extension: Option<Seq<char>>,
}

impl View for Renamer {
    type V = RenamerView;

    closed spec fn view(&self) -> RenamerView {
        RenamerView {
            stem: self.stem@,
            renamed: self.renamed@,
            original: self.original@,
            valid_original: self.valid_original,
            extension: opt_view(self.extension),
            add: self.add,
            case: self.case,
            date: self.date,
            ext: self.ext,
            folder: self.folder,
            name: self.name,
            number: self.number,
            regex: self.regex,
            remove: self.remove,
            replace: self.replace,
            is_dir: self.is_dir,
            windows_paths: self.windows_paths,
            reverted_stem: self.reverted_stem@,
            reverted_extension: opt_view(self.reverted_extension),
        }
    }
}

impl Renamer {
    /// The characters of the current stem.
    pub(crate) fn stem_chars(&self) -> (r: Vec<char>)
        ensures
            r@ == self@.stem,
    {
        chars_of(self.stem.as_str())
    }

    /// The text of the original path.
    pub(crate) fn original_path(&self) -> (r: &str)
        ensures
            r@ == self@.original,
    {
        self.original.as_str()
    }

    /// Whether paths on this platform use the backslash separator.
    pub(crate) fn backslash_paths(&self) -> (r: bool)
        ensures
            r == self@.windows_paths,
    {
        self.windows_paths
    }

    /// Replace the current stem.
    pub(crate) fn set_stem(&mut self, stem: String)
        ensures
            final(self)@ == old(self)@.with_stem(stem@),
    {
        self.stem = stem;
    }

    /// The characters of the current extension.
    pub(crate) fn extension_chars(&self) -> (r: Option<Vec<char>>)
        ensures
            opt_seq(r) == self@.extension,
    {
        match &self.extension {
            Some(e) => Some(chars_of(e.as_str())),
            None => None,
        }
    }

    /// Replace the current extension.
    pub(crate) fn set_extension(&mut self, ext: Option<String>)
        ensures
            final(self)@ == (RenamerView { extension: opt_view(ext), ..old(self)@ }),
    {
        self.extension = ext;
    }
}

impl Renamer {
    /// The state of a default renamer: an empty path and nothing chosen.
    pub open spec fn default_view() -> RenamerView {
        RenamerView {
            stem: Seq::empty(),
            renamed: Seq::empty(),
            original: Seq::empty(),
            valid_original: false,
            extension: None,
            add: None,
            case: None,
            date: None,
            ext: None,
            folder: None,
            name: None,
            number: None,
            regex: None,
            remove: None,
            replace: None,
            is_dir: false,
            windows_paths: false,
            reverted_stem: Seq::empty(),
            reverted_extension: None,
        }
    }
}

impl Default for Renamer {
    /// A renamer for an empty path, with nothing chosen.
    fn default() -> (r: Self)
        ensures
            r@ == Renamer::default_view(),
    {
        Renamer {
            stem: String::new(),
            renamed: String::new(),
            original: String::new(),
            valid_original: false,
            extension: None,
            add: None,
            case: None,
            date: None,
            ext: None,
            folder: None,
            name: None,
            number: None,
            regex: None,
            remove: None,
            replace: None,
            is_dir: false,
            windows_paths: false,
            reverted_stem: String::new(),
            reverted_extension: None,
        }
    }
}

impl RenamerView {
    /// This state with its stem replaced by `stem`.
    pub open spec fn with_stem(self, stem: Seq<char>) -> RenamerView {
        RenamerView { stem, ..self }
    }
}

/// A rename option together with its settings.
#[derive(Clone, Debug)]
pub enum RenameOption {
    Add(AddOptions),
    Case(CaseOptions),
    Date(DateOptions),
    Extension(ExtensionOptions),
    Folder(FolderOptions),
    Name(NameOptions),
    Number(NumberOptions),
    Regex(RegexOptions),
    Remove(RemoveOptions),
    Replace(ReplaceOptions),
}

/// The full file name made of `stem` and `extension`: the stem, a dot and the
/// extension, or the stem alone.
pub open spec fn full_name(stem: Seq<char>, extension: Option<Seq<char>>) -> Seq<char> {
    match extension {
        Some(e) => stem + seq!['.'] + e,
        None => stem,
    }
}

/// The state of a renamer made for the file at `path`, whose stem is `stem`.
pub open spec fn fresh_view(
    path: Seq<char>,
    stem: Seq<char>,
    valid: bool,
    is_dir: bool,
    windows: bool,
) -> RenamerView {
    RenamerView {
        stem,
        renamed: Seq::empty(),
        original: path,
        valid_original: valid,
        extension: path_extension(path),
        add: None,
        case: None,
        date: None,
        ext: None,
        folder: None,
        name: None,
        number: None,
        regex: None,
        remove: None,
        replace: None,
        is_dir,
        windows_paths: windows,
        reverted_stem: stem,
        reverted_extension: path_extension(path),
    }
}

impl RenamerView {
    /// This state with `option` chosen (replacing any option of its kind).
    pub open spec fn with_option(self, option: RenameOption) -> RenamerView {
        match option {
            RenameOption::Add(o) => RenamerView { add: Some(o), ..self },
            RenameOption::Case(o) => RenamerView { case: Some(o), ..self },
            RenameOption::Date(o) => RenamerView { date: Some(o), ..self },
            RenameOption::Extension(o) => RenamerView { ext: Some(o), ..self },
            RenameOption::Folder(o) => RenamerView { folder: Some(o), ..self },
            RenameOption::Name(o) => RenamerView { name: Some(o), ..self },
            RenameOption::Number(o) => RenamerView { number: Some(o), ..self },
            RenameOption::Regex(o) => RenamerView { regex: Some(o), ..self },
            RenameOption::Remove(o) => RenamerView { remove: Some(o), ..self },
            RenameOption::Replace(o) => RenamerView { replace: Some(o), ..self },
        }
    }

    /// This state with no option of the kind of `option`.
    pub open spec fn without_option(self, option: RenameOption) -> RenamerView {
        match option {
            RenameOption::Add(_) => RenamerView { add: None, ..self },
            RenameOption::Case(_) => RenamerView { case: None, ..self },
            RenameOption::Date(_) => RenamerView { date: None, ..self },
            RenameOption::Extension(_) => RenamerView { ext: None, ..self },
            RenameOption::Folder(_) => RenamerView { folder: None, ..self },
            RenameOption::Name(_) => RenamerView { name: None, ..self },
            RenameOption::Number(_) => RenamerView { number: None, ..self },
            RenameOption::Regex(_) => RenamerView { regex: None, ..self },
            RenameOption::Remove(_) => RenamerView { remove: None, ..self },
            RenameOption::Replace(_) => RenamerView { replace: None, ..self },
        }
    }

    /// This state with the options that `clear_options` resets unset.
    pub open spec fn cleared(self) -> RenamerView {
        RenamerView {
            regex: None,
            name: None,
            case: None,
            remove: None,
            add: None,
            date: None,
            folder: None,
            number: None,
            ext: None,
            ..self
        }
    }

    /// This state with the original stem and extension back and no new name.
    pub open spec fn reverted(self) -> RenamerView {
        RenamerView {
            stem: self.reverted_stem,
            extension: self.reverted_extension,
            renamed: Seq::empty(),
            ..self
        }
    }

    /// The stem and extension after the options that come before removal:
    /// regex, name, replace and case, applied to the original stem and
    /// extension in that order.
    pub open spec fn early_name(self) -> (Seq<char>, Option<Seq<char>>) {
        let (s1, e1) = match self.regex {
            Some(o) => o.regex_name(self.reverted_stem, self.reverted_extension),
            None => (self.reverted_stem, self.reverted_extension),
        };
        let s2 = match self.name {
            Some(o) => renamed_stem(o, s1),
            None => s1,
        };
        let s3 = match self.replace {
            Some(o) => o.replaced_stem(s2),
            None => s2,
        };
        let s4 = match self.case {
            Some(o) => o.cased_stem(s3),
            None => s3,
        };
        (s4, e1)
    }

    /// The stem and extension that the chosen options make of the original
    /// ones, applied in the order regex, name, replace, case, remove, add,
    /// date, folder, number, extension, given the date the platform reported
    /// for the date option (if any); `None` where an option cannot be applied
    /// or the new extension holds a path separator.
    #[verifier::opaque]
    pub open spec fn staged_name(self, date: Option<DateStamp>) -> Option<
        (Seq<char>, Option<Seq<char>>),
    > {
        let (s4, e1) = self.early_name();
        let s5 = match self.remove {
            Some(o) => o.removal(s4),
            None => Some(s4),
        };
        match s5 {
            None => None,
            Some(s5) => {
                let s6 = match self.add {
                    Some(o) => o.added_stem(s5),
                    None => s5,
                };
                let s7 = match self.date {
                    Some(o) => o.dated_stem(s6, date),
                    None => Some(s6),
                };
                match s7 {
                    None => None,
                    Some(s7) => {
                        let s8 = match self.folder {
                            Some(o) => o.folder_stem(
                                s7,
                                path_components(self.original),
                                self.windows_paths,
                            ),
                            None => s7,
                        };
                        let s9 = match self.number {
                            Some(o) => o.numbered_stem(s8),
                            None => s8,
                        };
                        let e2 = match self.ext {
                            Some(o) => o.new_extension(e1),
                            None => e1,
                        };
                        if e2 matches Some(e) && !separator_free(e) {
                            None
                        } else {
                            Some((s9, e2))
                        }
                    },
                }
            },
        }
    }

    /// The state after previewing with `date`: the new stem and extension, and
    /// the new name made of them.
    pub open spec fn previewed(self, date: Option<DateStamp>) -> RenamerView {
        let (stem, ext) = self.staged_name(date).unwrap();
        RenamerView { stem, extension: ext, renamed: full_name(stem, ext), ..self }
    }
}

impl Renamer {
    /// A renamer for the file at `path` (whose stem is valid Unicode exactly when
    /// `utf8`), which is a directory when `is_dir`. Fails with `BadStem` when the
    /// path has no file name.
    pub fn from_path_text(path: &str, utf8: bool, is_dir: bool) -> (r: Result<Renamer, FileError>)
        ensures
            match r {
                Ok(f) => path_file_stem(path@) is Some && f@ == fresh_view(
                    path@,
                    path_file_stem(path@).unwrap(),
                    utf8,
                    is_dir,
                    path_separator('\\'),
                ),
                Err(e) => path_file_stem(path@) is None && e is BadStem,
            },
    {
        let extension = extension_of(path);
        match file_stem_of(path) {
            Some(stem) => {
                let reverted_extension = match &extension {
                    Some(e) => Some(e.clone()),
                    None => None,
                };
                Ok(Renamer {
                    stem: stem.clone(),
                    renamed: String::new(),
                    original: path.to_owned(),
                    valid_original: utf8,
                    extension,
                    add: None,
                    case: None,
                    date: None,
                    ext: None,
                    folder: None,
                    name: None,
                    number: None,
                    regex: None,
                    remove: None,
                    replace: None,
                    is_dir,
                    windows_paths: is_separator('\\'),
                    reverted_stem: stem,
                    reverted_extension,
                })
            },
            None => Err(FileError::BadStem),
        }
    }

    /// A renamer for the file at `path`, which is a directory when `is_dir`.
    /// No check is made that the path exists. Fails with `BadStem` when the path
    /// has no file name.
    pub fn new(path: &str, is_dir: bool) -> (r: Result<Renamer, FileError>)
        ensures
            match r {
                Ok(f) => path_file_stem(path@) is Some && f@ == fresh_view(
                    path@,
                    path_file_stem(path@).unwrap(),
                    true,
                    is_dir,
                    path_separator('\\'),
                ),
                Err(e) => path_file_stem(path@) is None && e is BadStem,
            },
    {
        Renamer::from_path_text(path, true, is_dir)
    }

    /// Whether the file is a directory.
    pub fn is_dir(&self) -> (r: bool)
        ensures
            r == self@.is_dir,
    {
        self.is_dir
    }

    /// Whether the original file name was valid Unicode.
    pub fn is_valid(&self) -> (r: bool)
        ensures
            r == self@.valid_original,
    {
        self.valid_original
    }

    /// The current stem.
    pub fn stem(&self) -> (r: &str)
        ensures
            r@ == self@.stem,
    {
        self.stem.as_str()
    }

    /// The name made by the last preview (empty after a revert).
    pub fn renamed(&self) -> (r: &str)
        ensures
            r@ == self@.renamed,
    {
        self.renamed.as_str()
    }

    /// The current extension.
    pub fn extension(&self) -> (r: Option<&str>)
        ensures
            match r {
                Some(e) => self@.extension == Some(e@),
                None => self@.extension is None,
            },
    {
        match &self.extension {
            Some(e) => Some(e.as_str()),
            None => None,
        }
    }

    /// The path the renamer was made for.
    pub fn original(&self) -> (r: &str)
        ensures
            r@ == self@.original,
    {
        self.original.as_str()
    }

    /// Which date the chosen date option adds, if one is chosen: the date a
    /// preview must be given.
    pub fn date_kind(&self) -> (r: Option<DateType>)
        ensures
            r == match self@.date {
                Some(o) => Some(o.date_type),
                None => None,
            },
    {
        match &self.date {
            Some(o) => Some(o.date_type),
            None => None,
        }
    }

    /// Revert the previewed changes: the original stem and extension come back
    /// and the new name is cleared.
    pub fn revert(&mut self)
        ensures
            final(self)@ == old(self)@.reverted(),
    {
        self.stem = self.reverted_stem.clone();
        self.extension = match &self.reverted_extension {
            Some(e) => Some(e.clone()),
            None => None,
        };
        self.renamed = String::new();
    }

    /// The stem and extension after regex, name, replace and case.
    fn early(&self) -> (r: (Vec<char>, Option<Vec<char>>))
        ensures
            (r.0@, opt_seq(r.1)) == self@.early_name(),
    {
        let mut stem = chars_of(self.reverted_stem.as_str());
        let mut ext: Option<Vec<char>> = match &self.reverted_extension {
            Some(e) => Some(chars_of(e.as_str())),
            None => None,
        };
        match &self.regex {
            Some(opt) => {
                let (s, e) = opt.apply(&stem, &ext);
                stem = s;
                ext = e;
            },
            None => {},
        }
        match &self.name {
            Some(opt) => stem = opt.apply(&stem),
            None => {},
        }
        match &self.replace {
            Some(opt) => stem = opt.apply(&stem),
            None => {},
        }
        match &self.case {
            Some(opt) => stem = opt.apply(&stem),
            None => {},
        }
        (stem, ext)
    }

    /// The stem and extension that the chosen options make of the original
    /// ones, or `None` where an option cannot be applied.
    fn staged(&self, date: Option<DateStamp>) -> (r: Option<(String, Option<String>)>)
        ensures
            match r {
                Some(p) => self@.staged_name(date) == Some((p.0@, opt_view(p.1))) && (p.1 matches Some(
                    e,
                ) ==> separator_free(e@)),
                None => self@.staged_name(date) is None,
            },
    {
        proof {
            reveal(RenamerView::staged_name);
        }
        let (mut stem, ext) = self.early();
        match &self.remove {
            Some(opt) => match opt.removed(&stem) {
                Some(s) => stem = s,
                None => return None,
            },
            None => {},
        }
        match &self.add {
            Some(opt) => stem = opt.apply(&stem),
            None => {},
        }
        match &self.date {
            Some(opt) => match opt.date_stem(string_of(&stem).as_str(), date) {
                Some(s) => stem = chars_of(s.as_str()),
                None => return None,
            },
            None => {},
        }
        match &self.folder {
            Some(opt) => {
                let parts = components_of(self.original.as_str());
                stem = opt.folder_text(&stem, &parts, self.windows_paths);
            },
            None => {},
        }
        match &self.number {
            Some(opt) => stem = opt.apply(&stem),
            None => {},
        }
        let ext_text: Option<String> = match &ext {
            Some(e) => Some(string_of(e)),
            None => None,
        };
        let new_ext: Option<String> = match &self.ext {
            Some(opt) => opt.apply(
                match &ext_text {
                    Some(e) => Some(e.as_str()),
                    None => None,
                },
            ),
            None => ext_text,
        };
        match &new_ext {
            Some(e) => {
                if !has_no_separator(e.as_str()) {
                    return None;
                }
            },
            None => {},
        }
        Some((string_of(&stem), new_ext))
    }

    /// Apply the chosen options to the original name, in the order regex,
    /// name, replace, case, remove, add, date, folder, number, extension, and
    /// return the new file name. `date` is the date the platform reported for
    /// the date option, if it reported one.
    pub fn preview(&mut self, date: Option<DateStamp>) -> (r: String)
        requires
            old(self)@.staged_name(date) is Some,
        ensures
            final(self)@ == old(self)@.previewed(date),
            r@ == final(self)@.renamed,
    {
        let (stem, ext) = self.staged(date).unwrap();
        let new_name = match &ext {
            Some(e) => {
                let mut name = chars_of(stem.as_str());
                name.push('.');
                append_chars(&mut name, &chars_of(e.as_str()));
                assert(name@ =~= stem@ + seq!['.'] + e@);
                string_of(&name)
            },
            None => stem.clone(),
        };
        self.stem = stem;
        self.extension = ext;
        self.renamed = new_name.clone();
        new_name
    }

    /// Preview where every chosen option can be applied; otherwise leave the
    /// renamer unchanged and return `None`.
    pub fn try_preview(&mut self, date: Option<DateStamp>) -> (r: Option<String>)
        ensures
            match r {
                Some(n) => old(self)@.staged_name(date) is Some && final(self)@ == old(
                    self,
                )@.previewed(date) && n@ == final(self)@.renamed,
                None => old(self)@.staged_name(date) is None && final(self)@ == old(self)@,
            },
    {
        match self.staged(date) {
            Some(_) => Some(self.preview(date)),
            None => None,
        }
    }

    /// This renamer with `option` chosen (replacing any option of its kind).
    pub fn with_option(self, option: RenameOption) -> (r: Renamer)
        ensures
            r@ == self@.with_option(option),
    {
        let mut r = self;
        r.add_option(option);
        r
    }

    /// Choose `option` (replacing any option of its kind).
    pub fn add_option(&mut self, option: RenameOption)
        ensures
            final(self)@ == old(self)@.with_option(option),
    {
        match option {
            RenameOption::Regex(opt) => self.regex = Some(opt),
            RenameOption::Name(opt) => self.name = Some(opt),
            RenameOption::Case(opt) => self.case = Some(opt),
            RenameOption::Remove(opt) => self.remove = Some(opt),
            RenameOption::Replace(opt) => self.replace = Some(opt),
            RenameOption::Add(opt) => self.add = Some(opt),
            RenameOption::Date(opt) => self.date = Some(opt),
            RenameOption::Folder(opt) => self.folder = Some(opt),
            RenameOption::Number(opt) => self.number = Some(opt),
            RenameOption::Extension(opt) => self.ext = Some(opt),
        }
    }

    /// Drop the chosen option of the kind of `option`.
    pub fn remove_option(&mut self, option: RenameOption)
        ensures
            final(self)@ == old(self)@.without_option(option),
    {
        match option {
            RenameOption::Regex(_) => self.regex = None,
            RenameOption::Name(_) => self.name = None,
            RenameOption::Case(_) => self.case = None,
            RenameOption::Remove(_) => self.remove = None,
            RenameOption::Replace(_) => self.replace = None,
            RenameOption::Add(_) => self.add = None,
            RenameOption::Date(_) => self.date = None,
            RenameOption::Folder(_) => self.folder = None,
            RenameOption::Number(_) => self.number = None,
            RenameOption::Extension(_) => self.ext = None,
        }
    }

    /// Drop the chosen option of the kind of `option`, which is only looked at.
    pub(crate) fn remove_kind(&mut self, option: &RenameOption)
        ensures
            final(self)@ == old(self)@.without_option(*option),
    {
        match option {
            RenameOption::Regex(_) => self.regex = None,
            RenameOption::Name(_) => self.name = None,
            RenameOption::Case(_) => self.case = None,
            RenameOption::Remove(_) => self.remove = None,
            RenameOption::Add(_) => self.add = None,
            RenameOption::Date(_) => self.date = None,
            RenameOption::Folder(_) => self.folder = None,
            RenameOption::Number(_) => self.number = None,
            RenameOption::Extension(_) => self.ext = None,
            RenameOption::Replace(_) => self.replace = None,
        }
    }

    /// Drop every chosen option.
    pub fn clear_options(&mut self)
        ensures
            final(self)@ == old(self)@.cleared(),
    {
        self.regex = None;
        self.name = None;
        self.case = None;
        self.remove = None;
        self.add = None;
        self.date = None;
        self.folder = None;
        self.number = None;
        self.ext = None;
    }
}

/// Whether two options are of the same kind (and so replace each other).
pub open spec fn same_kind(a: RenameOption, b: RenameOption) -> bool {
    match (a, b) {
        (RenameOption::Add(_), RenameOption::Add(_)) => true,
        (RenameOption::Case(_), RenameOption::Case(_)) => true,
        (RenameOption::Date(_), RenameOption::Date(_)) => true,
        (RenameOption::Extension(_), RenameOption::Extension(_)) => true,
        (RenameOption::Folder(_), RenameOption::Folder(_)) => true,
        (RenameOption::Name(_), RenameOption::Name(_)) => true,
        (RenameOption::Number(_), RenameOption::Number(_)) => true,
        (RenameOption::Regex(_), RenameOption::Regex(_)) => true,
        (RenameOption::Remove(_), RenameOption::Remove(_)) => true,
        (RenameOption::Replace(_), RenameOption::Replace(_)) => true,
        _ => false,
    }
}

/// The staged name depends only on the original stem and extension, the path,
/// the platform and the chosen options, not on an earlier preview.
#[verifier::spinoff_prover]
#[verifier::rlimit(40)]
pub proof fn lemma_staged_same(a: RenamerView, b: RenamerView, date: Option<DateStamp>)
    requires
        a.reverted_stem == b.reverted_stem,
        a.reverted_extension == b.reverted_extension,
        a.original == b.original,
        a.windows_paths == b.windows_paths,
        a.regex == b.regex,
        a.name == b.name,
        a.replace == b.replace,
        a.case == b.case,
        a.remove == b.remove,
        a.add == b.add,
        a.date == b.date,
        a.folder == b.folder,
        a.number == b.number,
        a.ext == b.ext,
    ensures
        a.staged_name(date) == b.staged_name(date),
{
    assert(a.early_name() == b.early_name());
    reveal(RenamerView::staged_name);
}

/// Previewing is repeatable: a second preview with the same date gives the same
/// state and name as the first, because the options are always applied to the
/// original name and never to an earlier preview.
pub proof fn lemma_preview_idempotent(v: RenamerView, date: Option<DateStamp>)
    requires
        v.staged_name(date) is Some,
    ensures
        v.previewed(date).staged_name(date) == v.staged_name(date),
        v.previewed(date).previewed(date) == v.previewed(date),
{
    lemma_staged_same(v.previewed(date), v, date);
}

/// Reverting after a preview gives back the state before the preview, reverted:
/// the original stem and extension, and no new name.
pub proof fn lemma_revert_undoes_preview(v: RenamerView, date: Option<DateStamp>)
    requires
        v.staged_name(date) is Some,
    ensures
        v.previewed(date).reverted() == v.reverted(),
{
}

/// With no options chosen, a preview gives back the original stem and
/// extension, and the new name is made of them (for an extension that holds
/// no path separator, as a file's own extension does not).
pub proof fn lemma_no_options_keep_name(v: RenamerView, date: Option<DateStamp>)
    requires
        v.replace is None,
        v.reverted_extension matches Some(e) ==> separator_free(e),
    ensures
        v.cleared().staged_name(date) == Some((v.reverted_stem, v.reverted_extension)),
        v.cleared().previewed(date).renamed == full_name(v.reverted_stem, v.reverted_extension),
{
    reveal(RenamerView::staged_name);
}

/// With no options chosen, the preview of a renamer made for `path` gives back
/// the path's file name unchanged: its stem, a dot and its extension (where the
/// extension holds no path separator, as a file's own extension does not).
pub proof fn lemma_no_options_keep_file_name(
    path: Seq<char>,
    valid: bool,
    is_dir: bool,
    windows: bool,
    date: Option<DateStamp>,
)
    requires
        path_file_stem(path) is Some,
        path_extension(path) matches Some(e) ==> separator_free(e),
    ensures
        fresh_view(path, path_file_stem(path).unwrap(), valid, is_dir, windows).previewed(
            date,
        ).renamed == file_name(path_components(path)).unwrap(),
{
    let v = fresh_view(path, path_file_stem(path).unwrap(), valid, is_dir, windows);
    lemma_no_options_keep_name(v, date);
    assert(v.cleared() == v);
    let n = file_name(path_components(path)).unwrap();
    lemma_last_index(n, '.');
    let k = last_index(n, '.');
    if k > 0 {
        assert(n.take(k) + seq!['.'] + n.skip(k + 1) =~= n);
    }
}

/// Choosing options of different kinds gives the same state in either order,
/// so the preview does not depend on the order in which they were chosen.
pub proof fn lemma_options_commute(v: RenamerView, a: RenameOption, b: RenameOption, date: Option<
    DateStamp,
>)
    requires
        !same_kind(a, b),
    ensures
        v.with_option(a).with_option(b) == v.with_option(b).with_option(a),
        v.with_option(a).with_option(b).staged_name(date) == v.with_option(b).with_option(
            a,
        ).staged_name(date),
        v.with_option(a).with_option(b).previewed(date) == v.with_option(b).with_option(
            a,
        ).previewed(date),
{
}

/// Choosing an option replaces an earlier option of the same kind, and dropping
/// an option of a kind drops whatever option of that kind was chosen.
pub proof fn lemma_option_replaces(v: RenamerView, a: RenameOption, b: RenameOption)
    requires
        same_kind(a, b),
    ensures
        v.with_option(a).with_option(b) == v.with_option(b),
        v.with_option(a).without_option(b) == v.without_option(b),
{
}

/// Choosing an option and then dropping its kind gives back a state that had
/// no option of that kind.
pub proof fn lemma_add_then_remove_option(v: RenamerView, a: RenameOption)
    requires
        v.without_option(a) == v,
    ensures
        v.with_option(a).without_option(a) == v,
{
}

/// One call that changes a renamer: choose an option, drop an option's kind,
/// clear the options, preview with a date (where the options can be applied),
/// or revert.
pub enum Step {
    Choose(RenameOption),
    Drop(RenameOption),
    Clear,
    Preview(Option<DateStamp>),
    Revert,
}

/// The state after `step`.
pub open spec fn after_step(v: RenamerView, step: Step) -> RenamerView {
    match step {
        Step::Choose(o) => v.with_option(o),
        Step::Drop(o) => v.without_option(o),
        Step::Clear => v.cleared(),
        Step::Preview(d) => if v.staged_name(d) is Some {
            v.previewed(d)
        } else {
            v
        },
        Step::Revert => v.reverted(),
    }
}

/// The state after `steps`, in order.
pub open spec fn after_steps(v: RenamerView, steps: Seq<Step>) -> RenamerView
    decreases steps.len(),
{
    if steps.len() == 0 {
        v
    } else {
        after_steps(after_step(v, steps[0]), steps.drop_first())
    }
}

/// Whatever options are chosen, dropped or cleared and however often the name
/// is previewed, reverting gives back the original stem and extension with no
/// new name; the path, the file's flags and the options stay as the calls left
/// them.
pub proof fn lemma_revert_after_steps(v: RenamerView, steps: Seq<Step>)
    ensures
        ({
            let w = after_steps(v, steps);
            let r = w.reverted();
            &&& r.stem == v.reverted_stem
            &&& r.extension == v.reverted_extension
            &&& r.renamed == Seq::<char>::empty()
            &&& r.original == v.original
            &&& r.is_dir == v.is_dir
            &&& r.valid_original == v.valid_original
            &&& r.windows_paths == v.windows_paths
            &&& r.reverted_stem == v.reverted_stem
            &&& r.reverted_extension == v.reverted_extension
            &&& r == RenamerView { stem: v.reverted_stem, extension: v.reverted_extension, renamed: Seq::empty(), ..w }
        }),
    decreases steps.len(),
{
    if steps.len() > 0 {
        lemma_revert_after_steps(after_step(v, steps[0]), steps.drop_first());
    }
}

} // verus!
