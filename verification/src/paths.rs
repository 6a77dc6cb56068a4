//! What the standard library's path handling reports of a path written as text.

use vstd::prelude::*;

use std::path::{Component, Path, Prefix};

use crate::reg::last_index;
use crate::renamer::opt_view;

verus! {

/// One component of a path, as `std::path::Component` reports it; a text that
/// is not valid Unicode is `None`. A prefix carries the share or device it names
/// (`None` for a drive prefix, which names none) and its whole text.
#[derive(Clone, Debug, PartialEq, Eq)]
pub enum PathPart {
    Prefix(Option<Option<String>>, Option<String>),
    RootDir,
    CurDir,
    ParentDir,
    Normal(Option<String>),
}

/// The components of `path`, as `Path::components` yields them.
pub uninterp spec fn path_components(path: Seq<char>) -> Seq<PathPart>;

/// The file name of a path with components `parts`: the last component,
/// where it is a normal one with a Unicode name.
pub open spec fn file_name(parts: Seq<PathPart>) -> Option<Seq<char>> {
    if parts.len() > 0 {
        match parts.last() {
            PathPart::Normal(Some(s)) => Some(s@),
            _ => None,
        }
    } else {
        None
    }
}

/// The file stem of `path`, as the documentation of `Path::file_stem` gives
/// it: none without a file name; otherwise the part of the file name before
/// its last '.', or the whole name where there is no '.' other than a first
/// character.
pub open spec fn path_file_stem(path: Seq<char>) -> Option<Seq<char>> {
    match file_name(path_components(path)) {
        Some(n) => Some(
            if last_index(n, '.') > 0 {
                n.take(last_index(n, '.'))
            } else {
                n
            },
        ),
        None => None,
    }
}

/// The extension of `path`, as the documentation of `Path::extension` gives
/// it: the part of the file name after its last '.', where there is a '.'
/// other than a first character.
pub open spec fn path_extension(path: Seq<char>) -> Option<Seq<char>> {
    match file_name(path_components(path)) {
        Some(n) => if last_index(n, '.') > 0 {
            Some(n.skip(last_index(n, '.') + 1))
        } else {
            None
        },
        None => None,
    }
}

/// Calls `Path::components` on `path` and converts each component: a prefix to
/// the share or device named by its `Verbatim`, `VerbatimUNC`, `DeviceNS` or
/// `UNC` kind (none for a `VerbatimDisk` or `Disk` kind) and its whole text, a
/// normal component to its text. The result is named `path_components`; nothing
/// more is stated of it.
#[verifier::external_body]
pub(crate) fn components_of(path: &str) -> (r: Vec<PathPart>)
    ensures
        r@ == path_components(path@),
{
    Path::new(path).components().map(|c| match c {
        Component::Prefix(p) => PathPart::Prefix(match p.kind() {
            Prefix::Verbatim(s) | Prefix::VerbatimUNC(_, s) | Prefix::DeviceNS(s) | Prefix::UNC(_, s)
                => Some(s.to_str().map(String::from)),
            Prefix::VerbatimDisk(_) | Prefix::Disk(_) => None,
        }, p.as_os_str().to_str().map(String::from)),
        Component::RootDir => PathPart::RootDir,
        Component::CurDir => PathPart::CurDir,
        Component::ParentDir => PathPart::ParentDir,
        Component::Normal(s) => PathPart::Normal(s.to_str().map(String::from)),
    }).collect()
}

/// Calls `Path::file_stem` on `path`; the result is as `path_file_stem` states
/// it, from the components of `path`.
#[verifier::external_body]
pub(crate) fn file_stem_of(path: &str) -> (r: Option<String>)
    ensures
        opt_view(r) == path_file_stem(path@),
{
    Path::new(path).file_stem().and_then(|s| s.to_str()).map(String::from)
}

/// Calls `Path::extension` on `path`; the result is as `path_extension` states
/// it, from the components of `path`.
#[verifier::external_body]
pub(crate) fn extension_of(path: &str) -> (r: Option<String>)
    ensures
        opt_view(r) == path_extension(path@),
{
    Path::new(path).extension().and_then(|s| s.to_str()).map(String::from)
}

/// Whether `c` separates path components on this platform, as
/// `std::path::is_separator` reports it.
pub uninterp spec fn path_separator(c: char) -> bool;

/// Whether `s` holds no path separator of this platform.
pub open spec fn separator_free(s: Seq<char>) -> bool {
    forall|i: int| 0 <= i < s.len() ==> !path_separator(#[trigger] s[i])
}

/// Calls `std::path::is_separator` on `c`. The result is named
/// `path_separator`.
#[verifier::external_body]
pub(crate) fn is_separator(c: char) -> (r: bool)
    ensures
        r == path_separator(c),
{
    std::path::is_separator(c)
}

/// Whether `s` holds no path separator of this platform.
pub(crate) fn has_no_separator(s: &str) -> (r: bool)
    ensures
        r == separator_free(s@),
{
    let cs = crate::text::chars_of(s);
    let mut i: usize = 0;
    while i < cs.len()
        invariant
            i <= cs.len(),
            cs@ == s@,
            forall|k: int| 0 <= k < i ==> !path_separator(#[trigger] s@[k]),
        decreases cs.len() - i,
    {
        if is_separator(cs[i]) {
            return false;
        }
        i = i + 1;
    }
    true
}

/// Whether the paths written `a` and `b` are equal, as `Path`'s `==` decides.
pub uninterp spec fn path_eq(a: Seq<char>, b: Seq<char>) -> bool;

/// Compares `Path::new(a)` and `Path::new(b)` with `==`. The result is named
/// `path_eq`; as `Path` is `Eq`, a path equals itself.
#[verifier::external_body]
pub(crate) fn paths_equal(a: &str, b: &str) -> (r: bool)
    ensures
        r == path_eq(a@, b@),
        a@ == b@ ==> r,
{
    Path::new(a) == Path::new(b)
}

} // verus!
