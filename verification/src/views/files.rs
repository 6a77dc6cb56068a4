//! The decisions of the file list: which rows a click selects, which column
//! the list is sorted by, and how two rows compare in that column.

use std::cmp::Ordering;
use std::collections::HashSet;
use vstd::prelude::*;

use crate::order::flipped;
use crate::text::{chars_of, lex_compare, lex_sign};

verus! {

broadcast use vstd::std_specs::hash::group_hash_axioms;

/// The rows from `low` to `high`, both included.
pub open spec fn row_range(low: usize, high: usize) -> Set<usize> {
    Set::new(|k: usize| low <= k <= high)
}

/// The selected rows of the file list and the row last clicked.
#[derive(Debug)]
pub struct Selection {
    pub selected: HashSet<usize>,
    pub last_row_selected: Option<usize>,
}

/// The selection after clicking row `index` with Control (`ctrl`) and Shift
/// (`shift`) held or not: Control toggles the row, Shift selects the range from
/// the last clicked row, both extend the selection by that range, and a plain
/// click selects the row alone. Without a row clicked before, a Shift click
/// selects or adds only the clicked row.
pub open spec fn pressed(
    selected: Set<usize>,
    last: Option<usize>,
    index: usize,
    ctrl: bool,
    shift: bool,
) -> (Set<usize>, Option<usize>) {
    if ctrl && !shift {
        (
            if selected.contains(index) {
                selected.remove(index)
            } else {
                selected.insert(index)
            },
            Some(index),
        )
    } else if !ctrl && shift {
        match last {
            Some(base) => (
                row_range(
                    if base < index {
                        base
                    } else {
                        index
                    },
                    if base < index {
                        index
                    } else {
                        base
                    },
                ),
                last,
            ),
            None => (Set::empty().insert(index), Some(index)),
        }
    } else if ctrl && shift {
        match last {
            Some(base) => (
                selected.union(
                    row_range(
                        if base < index {
                            base
                        } else {
                            index
                        },
                        if base < index {
                            index
                        } else {
                            base
                        },
                    ),
                ),
                last,
            ),
            None => (selected.insert(index), Some(index)),
        }
    } else {
        (Set::empty().insert(index), Some(index))
    }
}

/// What a click selects. A plain click selects the clicked row alone. A
/// Control-click toggles the clicked row and leaves the others. A Shift-click
/// selects exactly the rows between the row last clicked and the clicked row,
/// both included, in whichever order they lie; a Control+Shift-click adds those
/// rows to the selection. Without a row clicked before, the clicked row is
/// selected (alone for Shift, added for Control+Shift). The row last clicked
/// becomes the clicked row except after a Shift-click from an earlier row.
pub proof fn lemma_press_law(sel: Set<usize>, last: Option<usize>, index: usize, ctrl: bool, shift: bool)
    ensures
        ({
            let (s, l) = pressed(sel, last, index, ctrl, shift);
            &&& !ctrl && !shift ==> (forall|k: usize| s.contains(k) <==> k == index) && l == Some(index)
            &&& ctrl && !shift ==> (s.contains(index) <==> !sel.contains(index)) && (forall|k: usize|
                k != index ==> (s.contains(k) <==> sel.contains(k))) && l == Some(index)
            &&& shift && last is Some ==> l == last && forall|k: usize|
                #![trigger s.contains(k)]
                s.contains(k) <==> ((ctrl && sel.contains(k)) || (last.unwrap() <= k <= index)
                    || (index <= k <= last.unwrap()))
            &&& shift && last is None ==> l == Some(index) && forall|k: usize|
                s.contains(k) <==> ((ctrl && sel.contains(k)) || k == index)
            &&& shift ==> s.contains(index)
        }),
{
}

/// A Shift-click from row `a` to row `b` selects the same rows as one from
/// `b` to `a`.
pub proof fn lemma_shift_symmetric(sel: Set<usize>, a: usize, b: usize, ctrl: bool)
    ensures
        pressed(sel, Some(a), b, ctrl, true).0 == pressed(sel, Some(b), a, ctrl, true).0,
{
    lemma_press_law(sel, Some(a), b, ctrl, true);
    lemma_press_law(sel, Some(b), a, ctrl, true);
    assert(pressed(sel, Some(a), b, ctrl, true).0 =~= pressed(sel, Some(b), a, ctrl, true).0);
}

/// Add the rows from `low` to `high` to `set`.
fn add_range(set: &mut HashSet<usize>, low: usize, high: usize)
    requires
        low <= high,
    ensures
        final(set)@ == old(set)@.union(row_range(low, high)),
{
    let mut k: usize = low;
    loop
        invariant
            low <= k <= high,
            set@ == old(set)@.union(Set::new(|j: usize| low <= j < k)),
        decreases high - k,
    {
        set.insert(k);
        if k == high {
            assert(set@ =~= old(set)@.union(row_range(low, high)));
            return;
        }
        k = k + 1;
        assert(set@ =~= old(set)@.union(Set::new(|j: usize| low <= j < k)));
    }
}

impl Selection {
    /// No row selected and none clicked.
    pub fn new() -> (r: Self)
        ensures
            r.selected@ == Set::<usize>::empty(),
            r.last_row_selected is None,
    {
        Selection { selected: HashSet::new(), last_row_selected: None }
    }

    /// Click row `index` with Control (`ctrl`) and Shift (`shift`) held or not.
    pub fn press(&mut self, index: usize, ctrl: bool, shift: bool)
        ensures
            (final(self).selected@, final(self).last_row_selected) == pressed(
                old(self).selected@,
                old(self).last_row_selected,
                index,
                ctrl,
                shift,
            ),
    {
        let low_high = |base: usize| -> (r: (usize, usize))
            ensures
                r.0 == (if base < index {
                    base
                } else {
                    index
                }),
                r.1 == (if base < index {
                    index
                } else {
                    base
                }),
            {
                if base < index {
                    (base, index)
                } else {
                    (index, base)
                }
            };
        if ctrl && !shift {
            if !self.selected.remove(&index) {
                self.selected.insert(index);
            }
            self.last_row_selected = Some(index);
        } else if !ctrl && shift {
            match self.last_row_selected {
                Some(base) => {
                    let (low, high) = low_high(base);
                    let mut set = HashSet::new();
                    add_range(&mut set, low, high);
                    assert(set@ =~= row_range(low, high));
                    self.selected = set;
                },
                None => {
                    let mut set = HashSet::new();
                    set.insert(index);
                    self.selected = set;
                    self.last_row_selected = Some(index);
                },
            }
        } else if ctrl && shift {
            match self.last_row_selected {
                Some(base) => {
                    let (low, high) = low_high(base);
                    add_range(&mut self.selected, low, high);
                },
                None => {
                    self.selected.insert(index);
                    self.last_row_selected = Some(index);
                },
            }
        } else {
            let mut set = HashSet::new();
            set.insert(index);
            self.selected = set;
            self.last_row_selected = Some(index);
        }
    }
}

/// Which column the file list is sorted by, and in which direction.
#[derive(Clone, Copy, Debug, PartialEq, Eq, Structural)]
pub struct SortState {
    pub column: Option<usize>,
    pub ascending: bool,
}

impl SortState {
    /// Unsorted.
    pub fn new() -> (r: Self)
        ensures
            r.column is None && r.ascending,
    {
        SortState { column: None, ascending: true }
    }

    /// Press the header of column `index`: the new-name column (2) does not
    /// sort; pressing the sorted column again flips the direction, another
    /// column sorts ascending. Returns whether the list is to be sorted again.
    pub fn header_pressed(&mut self, index: usize) -> (r: bool)
        ensures
            r == (index != 2),
            index == 2 ==> *final(self) == *old(self),
            index != 2 && old(self).column == Some(index) ==> *final(self) == (SortState {
                column: Some(index),
                ascending: !old(self).ascending,
            }),
            index != 2 && old(self).column != Some(index) ==> *final(self) == (SortState {
                column: Some(index),
                ascending: true,
            }),
    {
        if index == 2 {
            return false;
        }
        match self.column {
            Some(c) if c == index => self.ascending = !self.ascending,
            _ => {
                self.column = Some(index);
                self.ascending = true;
            },
        }
        true
    }

    /// The sort marker of column `col`: the direction when the list is sorted by it.
    pub fn indicator(&self, col: usize) -> (r: Option<bool>)
        ensures
            r == (if self.column == Some(col) {
                Some(self.ascending)
            } else {
                None
            }),
    {
        match self.column {
            Some(c) if c == col => Some(self.ascending),
            _ => None,
        }
    }
}

/// What the file list shows of a file, as compared when sorting: its name, its
/// extension, whether it is a directory, its size, and the times it was
/// modified and created (nanoseconds since the Unix epoch).
#[derive(Clone, Debug)]
pub struct FileRow {
    pub original: String,
    pub extension: String,
    pub is_dir: bool,
    pub size: Option<u64>,
    pub modified: Option<i128>,
    pub created: Option<i128>,
}

/// The order of two optional values: nothing first, then by value.
pub open spec fn option_order(a: Option<int>, b: Option<int>) -> Ordering {
    match (a, b) {
        (None, None) => Ordering::Equal,
        (None, Some(_)) => Ordering::Less,
        (Some(_), None) => Ordering::Greater,
        (Some(x), Some(y)) => if x < y {
            Ordering::Less
        } else if x > y {
            Ordering::Greater
        } else {
            Ordering::Equal
        },
    }
}

/// The order of texts, as `String`s compare.
pub open spec fn text_order(a: Seq<char>, b: Seq<char>) -> Ordering {
    if lex_sign(a, b) < 0 {
        Ordering::Less
    } else if lex_sign(a, b) > 0 {
        Ordering::Greater
    } else {
        Ordering::Equal
    }
}

/// An optional size as an optional number.
pub open spec fn size_value(o: Option<u64>) -> Option<int> {
    match o {
        Some(x) => Some(x as int),
        None => None,
    }
}

/// An optional time as an optional number.
pub open spec fn time_value(o: Option<i128>) -> Option<int> {
    match o {
        Some(x) => Some(x as int),
        None => None,
    }
}

/// The order of rows `a` and `b` when sorting by column `col`: by name, by
/// extension with directories first, not at all for the new name, by size, or
/// by time modified or created; reversed when descending.
pub open spec fn row_order(col: usize, a: FileRow, b: FileRow, ascending: bool) -> Ordering {
    let ord = if col == 0 {
        text_order(a.original@, b.original@)
    } else if col == 1 {
        if a.is_dir && !b.is_dir {
            Ordering::Less
        } else if !a.is_dir && b.is_dir {
            Ordering::Greater
        } else {
            text_order(a.extension@, b.extension@)
        }
    } else if col == 2 {
        Ordering::Equal
    } else if col == 3 {
        option_order(size_value(a.size), size_value(b.size))
    } else if col == 4 {
        option_order(time_value(a.modified), time_value(b.modified))
    } else {
        option_order(time_value(a.created), time_value(b.created))
    };
    if ascending {
        ord
    } else {
        flipped(ord)
    }
}

/// How sorting by a column orders two rows. Descending is ascending reversed.
/// Ascending: by size, by modification time or by creation time, a row with no
/// value comes first and two known values come in increasing order; by name
/// or by extension (directories first there), texts come in text order; the
/// new-name column leaves rows as they are.
pub proof fn lemma_row_order_law(col: usize, a: FileRow, b: FileRow)
    requires
        col <= 5,
    ensures
        row_order(col, a, b, false) == flipped(row_order(col, a, b, true)),
        col == 2 ==> row_order(col, a, b, true) == Ordering::Equal,
        col == 0 ==> (row_order(col, a, b, true) == Ordering::Less <==> lex_sign(a.original@, b.original@) < 0)
            && (row_order(col, a, b, true) == Ordering::Greater <==> lex_sign(a.original@, b.original@) > 0),
        col == 1 && a.is_dir && !b.is_dir ==> row_order(col, a, b, true) == Ordering::Less,
        col == 1 && !a.is_dir && b.is_dir ==> row_order(col, a, b, true) == Ordering::Greater,
        col == 1 && a.is_dir == b.is_dir ==> (row_order(col, a, b, true) == Ordering::Less <==> lex_sign(a.extension@, b.extension@) < 0)
            && (row_order(col, a, b, true) == Ordering::Greater <==> lex_sign(a.extension@, b.extension@) > 0),
        col == 3 ==> match (a.size, b.size) {
            (Some(x), Some(y)) => (row_order(col, a, b, true) == Ordering::Less <==> x < y)
                && (row_order(col, a, b, true) == Ordering::Greater <==> x > y),
            (None, Some(_)) => row_order(col, a, b, true) == Ordering::Less,
            (Some(_), None) => row_order(col, a, b, true) == Ordering::Greater,
            (None, None) => row_order(col, a, b, true) == Ordering::Equal,
        },
        col == 4 ==> match (a.modified, b.modified) {
            (Some(x), Some(y)) => (row_order(col, a, b, true) == Ordering::Less <==> x < y)
                && (row_order(col, a, b, true) == Ordering::Greater <==> x > y),
            (None, Some(_)) => row_order(col, a, b, true) == Ordering::Less,
            (Some(_), None) => row_order(col, a, b, true) == Ordering::Greater,
            (None, None) => row_order(col, a, b, true) == Ordering::Equal,
        },
        col == 5 ==> match (a.created, b.created) {
            (Some(x), Some(y)) => (row_order(col, a, b, true) == Ordering::Less <==> x < y)
                && (row_order(col, a, b, true) == Ordering::Greater <==> x > y),
            (None, Some(_)) => row_order(col, a, b, true) == Ordering::Less,
            (Some(_), None) => row_order(col, a, b, true) == Ordering::Greater,
            (None, None) => row_order(col, a, b, true) == Ordering::Equal,
        },
{
}

/// The order of two texts.
fn compare_text(a: &String, b: &String) -> (r: Ordering)
    ensures
        r == text_order(a@, b@),
{
    let c = lex_compare(&chars_of(a.as_str()), &chars_of(b.as_str()));
    if c < 0 {
        Ordering::Less
    } else if c > 0 {
        Ordering::Greater
    } else {
        Ordering::Equal
    }
}

/// The order of two optional sizes.
fn compare_size(a: Option<u64>, b: Option<u64>) -> (r: Ordering)
    ensures
        r == option_order(size_value(a), size_value(b)),
{
    match (a, b) {
        (None, None) => Ordering::Equal,
        (None, Some(_)) => Ordering::Less,
        (Some(_), None) => Ordering::Greater,
        (Some(x), Some(y)) => if x < y {
            Ordering::Less
        } else if x > y {
            Ordering::Greater
        } else {
            Ordering::Equal
        },
    }
}

/// The order of two optional times.
fn compare_time(a: Option<i128>, b: Option<i128>) -> (r: Ordering)
    ensures
        r == option_order(time_value(a), time_value(b)),
{
    match (a, b) {
        (None, None) => Ordering::Equal,
        (None, Some(_)) => Ordering::Less,
        (Some(_), None) => Ordering::Greater,
        (Some(x), Some(y)) => if x < y {
            Ordering::Less
        } else if x > y {
            Ordering::Greater
        } else {
            Ordering::Equal
        },
    }
}

/// Compare rows `a` and `b` for sorting by column `col` (0 to 5).
pub fn compare_rows(col: usize, a: &FileRow, b: &FileRow, ascending: bool) -> (r: Ordering)
    requires
        col <= 5,
    ensures
        r == row_order(col, *a, *b, ascending),
{
    let ord = if col == 0 {
        compare_text(&a.original, &b.original)
    } else if col == 1 {
        if a.is_dir && !b.is_dir {
            Ordering::Less
        } else if !a.is_dir && b.is_dir {
            Ordering::Greater
        } else {
            compare_text(&a.extension, &b.extension)
        }
    } else if col == 2 {
        Ordering::Equal
    } else if col == 3 {
        compare_size(a.size, b.size)
    } else if col == 4 {
        compare_time(a.modified, b.modified)
    } else {
        compare_time(a.created, b.created)
    };
    if ascending {
        ord
    } else {
        match ord {
            Ordering::Less => Ordering::Greater,
            Ordering::Equal => Ordering::Equal,
            Ordering::Greater => Ordering::Less,
        }
    }
}

} // verus!
