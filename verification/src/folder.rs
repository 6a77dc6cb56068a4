//! Adding the names of the folders that contain the file.

use vstd::prelude::*;

use crate::paths::{components_of, path_components, PathPart};
use crate::remove::{strip, without};
use crate::renamer::{opt_view, Process, Renamer, RenamerView};
use crate::text::{append_chars, chars_of, remove_all, remove_all_of, string_of, views_of};

verus! {

/// Add the name of the containing folder or hierarchy of folders.
/// These can be added in prefix or suffix `mode`, with a `sep`arator after each
/// name. A positive `levels` adds that many folders, nearest first; a negative
/// one adds only the folder that many levels up.
///
/// The verbatim marker `\\?\` is removed from each name, and on Windows so is
/// the drive colon.
#[derive(Clone, Debug, PartialEq, Eq)]
pub struct FolderOptions {
    pub mode: FolderMode,
    pub sep: String,
    pub levels: i32,
}

/// Select from
/// `FolderMode::Off` (no folder names),
/// `FolderMode::Prefix` or
/// `FolderMode::Suffix`.
#[derive(Clone, Copy, Debug, PartialEq, Eq)]
pub enum FolderMode {
    Off,
    Prefix,
    Suffix,
}

impl Default for FolderMode {
    fn default() -> (r: Self)
        ensures
            r == FolderMode::Off,
    {
        FolderMode::Off
    }
}

impl Default for FolderOptions {
    fn default() -> (r: Self)
        ensures
            r.mode == FolderMode::Off,
            r.sep@.len() == 0,
            r.levels == 0,
    {
        FolderOptions { mode: FolderMode::Off, sep: String::new(), levels: 0 }
    }
}

/// The name of a prefix component: the share or device it names, or for a
/// drive its whole text.
pub open spec fn prefix_name(share: Option<Option<String>>, whole: Option<String>) -> Option<
    Seq<char>,
> {
    match share {
        Some(s) => opt_view(s),
        None => opt_view(whole),
    }
}

/// The names of the normal and prefix components of `q`, last component first.
pub open spec fn names_reversed(q: Seq<PathPart>) -> Seq<Option<Seq<char>>>
    decreases q.len(),
{
    if q.len() == 0 {
        Seq::empty()
    } else {
        let rest = names_reversed(q.drop_first());
        match q[0] {
            PathPart::Normal(s) => rest.push(opt_view(s)),
            PathPart::Prefix(share, whole) => rest.push(prefix_name(share, whole)),
            _ => rest,
        }
    }
}

/// The names of the folders above the last component of a path, nearest first.
pub open spec fn folder_names(parts: Seq<PathPart>) -> Seq<Option<Seq<char>>> {
    if parts.len() == 0 {
        Seq::empty()
    } else {
        names_reversed(parts.drop_last())
    }
}

/// The verbatim path marker `\\?\`.
pub open spec fn verbatim_marker() -> Seq<char> {
    seq!['\\', '\\', '?', '\\']
}

/// A folder name as it is added: without the verbatim marker, and without
/// colons on Windows.
pub open spec fn cleaned(name: Seq<char>, windows: bool) -> Seq<char> {
    let n = remove_all(name, verbatim_marker());
    if windows {
        without(n, seq![':'])
    } else {
        n
    }
}

/// The cleaned names among `sel`, in order, skipping those that are not valid
/// Unicode.
pub open spec fn kept_names(sel: Seq<Option<Seq<char>>>, windows: bool) -> Seq<Seq<char>>
    decreases sel.len(),
{
    if sel.len() == 0 {
        Seq::empty()
    } else {
        let rest = kept_names(sel.drop_last(), windows);
        match sel.last() {
            Some(n) => rest.push(cleaned(n, windows)),
            None => rest,
        }
    }
}

/// `stem` with each of `names` put in front of it in turn, each followed by `sep`.
pub open spec fn prefixed(stem: Seq<char>, names: Seq<Seq<char>>, sep: Seq<char>) -> Seq<char>
    decreases names.len(),
{
    if names.len() == 0 {
        stem
    } else {
        names.last() + sep + prefixed(stem, names.drop_last(), sep)
    }
}

/// `stem` with each of `names` appended in turn, each followed by `sep`.
pub open spec fn suffixed(stem: Seq<char>, names: Seq<Seq<char>>, sep: Seq<char>) -> Seq<char>
    decreases names.len(),
{
    if names.len() == 0 {
        stem
    } else {
        suffixed(stem, names.drop_last(), sep) + names.last() + sep
    }
}

/// The magnitude of a level count.
pub open spec fn level_count(levels: i32) -> nat {
    if levels >= 0 {
        levels as nat
    } else {
        (-levels) as nat
    }
}

impl FolderOptions {
    /// The folder names that are added, in the order they are added.
    pub open spec fn chosen(&self, parts: Seq<PathPart>, windows: bool) -> Seq<Seq<char>> {
        let names = folder_names(parts);
        let n = level_count(self.levels);
        let end = if names.len() < n {
            names.len() as int
        } else {
            n as int
        };
        let start = if self.levels >= 0 || end == 0 {
            0
        } else {
            end - 1
        };
        kept_names(names.subrange(start, end), windows)
    }

    /// The stem after adding folder names to `stem`, for a file whose path has
    /// the components `parts`.
    pub open spec fn folder_stem(&self, stem: Seq<char>, parts: Seq<PathPart>, windows: bool) -> Seq<char> {
        match self.mode {
            FolderMode::Prefix => prefixed(stem, self.chosen(parts, windows), self.sep@),
            FolderMode::Suffix => suffixed(stem, self.chosen(parts, windows), self.sep@),
            FolderMode::Off => stem,
        }
    }
}

/// Keeping the valid names never adds any.
proof fn lemma_kept_len(sel: Seq<Option<Seq<char>>>, windows: bool)
    ensures
        kept_names(sel, windows).len() <= sel.len(),
    decreases sel.len(),
{
    if sel.len() > 0 {
        lemma_kept_len(sel.drop_last(), windows);
    }
}

/// Prefixing keeps the stem at the end; suffixing keeps it at the start.
proof fn lemma_fixes_keep_stem(stem: Seq<char>, names: Seq<Seq<char>>, sep: Seq<char>)
    ensures
        prefixed(stem, names, sep).len() >= stem.len(),
        prefixed(stem, names, sep).skip(prefixed(stem, names, sep).len() - stem.len()) == stem,
        suffixed(stem, names, sep).len() >= stem.len(),
        suffixed(stem, names, sep).take(stem.len() as int) == stem,
    decreases names.len(),
{
    if names.len() > 0 {
        lemma_fixes_keep_stem(stem, names.drop_last(), sep);
        let p = prefixed(stem, names.drop_last(), sep);
        let q = suffixed(stem, names.drop_last(), sep);
        assert(prefixed(stem, names, sep).skip(prefixed(stem, names, sep).len() - stem.len())
            =~= p.skip(p.len() - stem.len()));
        assert(suffixed(stem, names, sep).take(stem.len() as int) =~= q.take(stem.len() as int));
    } else {
        assert(stem.skip(0) =~= stem);
    }
}

/// Folder names go around the stem, never into it: in prefix mode the stem ends
/// the new name, in suffix mode it starts it, and with mode `Off` or zero levels
/// it is unchanged. A positive level count adds at most that many names, a
/// negative one at most one.
pub proof fn lemma_folder_keeps_stem(
    opts: FolderOptions,
    stem: Seq<char>,
    parts: Seq<PathPart>,
    windows: bool,
)
    ensures
        ({
            let t = opts.folder_stem(stem, parts, windows);
            &&& opts.mode == FolderMode::Prefix ==> t.len() >= stem.len() && t.skip(
                t.len() - stem.len(),
            ) == stem
            &&& opts.mode == FolderMode::Suffix ==> t.len() >= stem.len() && t.take(
                stem.len() as int,
            ) == stem
            &&& (opts.mode == FolderMode::Off || opts.levels == 0) ==> t == stem
            &&& opts.levels >= 0 ==> opts.chosen(parts, windows).len() <= opts.levels
            &&& opts.levels < 0 ==> opts.chosen(parts, windows).len() <= 1
        }),
{
    let names = folder_names(parts);
    let n = level_count(opts.levels);
    let end = if names.len() < n {
        names.len() as int
    } else {
        n as int
    };
    let start = if opts.levels >= 0 || end == 0 {
        0
    } else {
        end - 1
    };
    lemma_kept_len(names.subrange(start, end), windows);
    lemma_fixes_keep_stem(stem, opts.chosen(parts, windows), opts.sep@);
    if opts.levels == 0 {
        assert(opts.chosen(parts, windows) =~= Seq::<Seq<char>>::empty());
    }
}

/// The names of the folders above the last component of `parts`, nearest first.
fn parent_names(parts: &Vec<PathPart>) -> (r: Vec<Option<Vec<char>>>)
    ensures
        r@.len() == folder_names(parts@).len(),
        forall|i: int| 0 <= i < r@.len() ==> opt_chars(r@[i]) == folder_names(parts@)[i],
{
    let mut out: Vec<Option<Vec<char>>> = Vec::new();
    if parts.len() == 0 {
        return out;
    }
    let ghost q = parts@.drop_last();
    let mut k: usize = parts.len() - 1;
    assert(q.skip(q.len() as int) =~= Seq::<PathPart>::empty());
    while k > 0
        invariant
            k <= q.len(),
            parts@.len() == q.len() + 1,
            q == parts@.drop_last(),
            out@.len() == names_reversed(q.skip(k as int)).len(),
            forall|i: int| 0 <= i < out@.len() ==> opt_chars(out@[i]) == names_reversed(q.skip(k as int))[i],
        decreases k,
    {
        k = k - 1;
        assert(q.skip(k as int).drop_first() =~= q.skip(k + 1));
        assert(q.skip(k as int)[0] == parts@[k as int]);
        match &parts[k] {
            PathPart::Normal(s) | PathPart::Prefix(Some(s), _) | PathPart::Prefix(None, s) => {
                let name = match s {
                    Some(t) => Some(chars_of(t.as_str())),
                    None => None,
                };
                out.push(name);
            },
            _ => {},
        }
    }
    assert(q.skip(0) =~= q);
    out
}

/// The view of an optional character vector.
pub open spec fn opt_chars(o: Option<Vec<char>>) -> Option<Seq<char>> {
    match o {
        Some(v) => Some(v@),
        None => None,
    }
}

/// A folder name as it is added.
fn clean_name(name: &[char], windows: bool) -> (r: Vec<char>)
    ensures
        r@ == cleaned(name@, windows),
{
    let mut marker: Vec<char> = Vec::new();
    marker.push('\\');
    marker.push('\\');
    marker.push('?');
    marker.push('\\');
    assert(marker@ =~= verbatim_marker());
    let n = remove_all_of(name, &marker);
    if windows {
        let mut colon: Vec<char> = Vec::new();
        colon.push(':');
        assert(colon@ =~= seq![':']);
        strip(&n, &colon)
    } else {
        n
    }
}

impl FolderOptions {
    /// How many folders `levels` names, as an unsigned count.
    fn level_magnitude(&self) -> (r: usize)
        ensures
            r == level_count(self.levels),
    {
        let m: u32 = if self.levels >= 0 {
            self.levels as u32
        } else if self.levels == i32::MIN {
            2147483648
        } else {
            (-self.levels) as u32
        };
        m as usize
    }

    /// The stem after adding folder names to `stem`, for a file whose path has
    /// the components `parts`, on a platform with backslash paths or not.
    pub fn folder_text(&self, stem: &[char], parts: &Vec<PathPart>, windows: bool) -> (r: Vec<char>)
        ensures
            r@ == self.folder_stem(stem@, parts@, windows),
    {
        let names = parent_names(parts);
        let ghost nv = folder_names(parts@);
        let n = self.level_magnitude();
        let end = if names.len() < n {
            names.len()
        } else {
            n
        };
        let start = if self.levels >= 0 || end == 0 {
            0
        } else {
            end - 1
        };
        let mut items: Vec<Vec<char>> = Vec::new();
        let mut i: usize = start;
        assert(nv.subrange(start as int, start as int) =~= Seq::<Option<Seq<char>>>::empty());
        while i < end
            invariant
                start <= i <= end <= names@.len(),
                names@.len() == nv.len(),
                forall|k: int| 0 <= k < names@.len() ==> opt_chars(names@[k]) == nv[k],
                views_of(items@) == kept_names(nv.subrange(start as int, i as int), windows),
            decreases end - i,
        {
            assert(nv.subrange(start as int, i + 1).drop_last() =~= nv.subrange(start as int, i as int));
            assert(nv.subrange(start as int, i + 1).last() == nv[i as int]);
            match &names[i] {
                Some(x) => {
                    let c = clean_name(x.as_slice(), windows);
                    items.push(c);
                    assert(views_of(items@) =~= views_of(items@.drop_last()).push(c@));
                },
                None => {},
            }
            i = i + 1;
        }
        let ghost chosen = views_of(items@);
        assert(chosen == self.chosen(parts@, windows));
        let sep = chars_of(self.sep.as_str());
        let mut cur: Vec<char> = Vec::new();
        append_chars(&mut cur, stem);
        assert(cur@ =~= stem@);
        match self.mode {
            FolderMode::Off => {},
            FolderMode::Prefix => {
                let mut j: usize = 0;
                assert(chosen.take(0) =~= Seq::<Seq<char>>::empty());
                while j < items.len()
                    invariant
                        j <= items.len(),
                        chosen == views_of(items@),
                        sep@ == self.sep@,
                        cur@ == prefixed(stem@, chosen.take(j as int), sep@),
                    decreases items.len() - j,
                {
                    let mut next: Vec<char> = Vec::new();
                    append_chars(&mut next, items[j].as_slice());
                    append_chars(&mut next, &sep);
                    append_chars(&mut next, &cur);
                    cur = next;
                    assert(chosen.take(j + 1).drop_last() =~= chosen.take(j as int));
                    assert(chosen.take(j + 1).last() == items@[j as int]@);
                    j = j + 1;
                }
                assert(chosen.take(items.len() as int) =~= chosen);
            },
            FolderMode::Suffix => {
                let mut j: usize = 0;
                assert(chosen.take(0) =~= Seq::<Seq<char>>::empty());
                while j < items.len()
                    invariant
                        j <= items.len(),
                        chosen == views_of(items@),
                        sep@ == self.sep@,
                        cur@ == suffixed(stem@, chosen.take(j as int), sep@),
                    decreases items.len() - j,
                {
                    append_chars(&mut cur, items[j].as_slice());
                    append_chars(&mut cur, &sep);
                    assert(chosen.take(j + 1).drop_last() =~= chosen.take(j as int));
                    assert(chosen.take(j + 1).last() == items@[j as int]@);
                    j = j + 1;
                }
                assert(chosen.take(items.len() as int) =~= chosen);
            },
        }
        cur
    }
}

impl Process for FolderOptions {
    open spec fn applies_to(&self, file: RenamerView) -> bool {
        true
    }

    open spec fn outcome(&self, before: RenamerView, after: RenamerView) -> bool {
        after == before.with_stem(
            self.folder_stem(before.stem, path_components(before.original), before.windows_paths),
        )
    }

    fn process(&self, file: &mut Renamer) {
        let parts = components_of(file.original_path());
        let stem = file.stem_chars();
        let out = self.folder_text(&stem, &parts, file.backslash_paths());
        file.set_stem(string_of(&out));
    }
}

} // verus!
