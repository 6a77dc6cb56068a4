//! Changes made to every file of a list, or to chosen files in turn.

use vstd::prelude::*;

use crate::renamer::{RenameOption, Renamer, RenamerView};

verus! {

/// The states of the renamers of a list.
pub open spec fn views_of(files: Seq<Renamer>) -> Seq<RenamerView> {
    files.map_values(|f: Renamer| f@)
}

/// The states after reverting the file at each index of `choices`, in order,
/// and choosing the option paired with it.
pub open spec fn chosen_for(views: Seq<RenamerView>, choices: Seq<(usize, RenameOption)>) -> Seq<
    RenamerView,
>
    decreases choices.len(),
{
    if choices.len() == 0 {
        views
    } else {
        let before = chosen_for(views, choices.drop_last());
        let (i, o) = choices.last();
        before.update(i as int, before[i as int].reverted().with_option(o))
    }
}

/// Drop the option of the kind of `option` from every file, and revert each.
pub fn clear_option_all(files: &mut Vec<Renamer>, option: &RenameOption)
    ensures
        final(files)@.len() == old(files)@.len(),
        forall|i: int|
            0 <= i < old(files)@.len() ==> (#[trigger] final(files)@[i])@ == old(
                files,
            )@[i]@.without_option(*option).reverted(),
{
    let n = files.len();
    let mut i: usize = 0;
    while i < n
        invariant
            i <= n,
            n == old(files)@.len(),
            files@.len() == n,
            forall|k: int|
                0 <= k < i ==> (#[trigger] files@[k])@ == old(files)@[k]@.without_option(
                    *option,
                ).reverted(),
            forall|k: int| i <= k < n ==> #[trigger] files@[k] == old(files)@[k],
        decreases n - i,
    {
        let mut f = files.remove(i);
        f.remove_kind(option);
        f.revert();
        files.insert(i, f);
        i = i + 1;
    }
}

/// For each index of `choices` in order, revert that file and choose the
/// option paired with it.
pub fn choose_for(files: &mut Vec<Renamer>, choices: Vec<(usize, RenameOption)>)
    requires
        forall|k: int| 0 <= k < choices@.len() ==> (#[trigger] choices@[k]).0 < old(files)@.len(),
    ensures
        final(files)@.len() == old(files)@.len(),
        views_of(final(files)@) == chosen_for(views_of(old(files)@), choices@),
{
    let mut rest = choices;
    let ghost all = rest@;
    let mut done: usize = 0;
    let n = files.len();
    let total = rest.len();
    assert(all.take(0) =~= Seq::<(usize, RenameOption)>::empty());
    assert(views_of(files@) == chosen_for(views_of(old(files)@), all.take(0)));
    while rest.len() > 0
        invariant
            n == old(files)@.len(),
            files@.len() == n,
            done + rest@.len() == all.len(),
            all.len() == total,
            rest@ == all.skip(done as int),
            forall|k: int| 0 <= k < all.len() ==> (#[trigger] all[k]).0 < n,
            views_of(files@) == chosen_for(views_of(old(files)@), all.take(done as int)),
        decreases rest@.len(),
    {
        let (i, o) = rest.remove(0);
        assert(all[done as int] == (i, o));
        let ghost before = views_of(files@);
        let mut f = files.remove(i);
        f.revert();
        f.add_option(o);
        files.insert(i, f);
        proof {
            assert(all.take(done + 1).drop_last() =~= all.take(done as int));
            assert(all.take(done + 1).last() == (i, o));
            assert(views_of(files@) =~= before.update(i as int, before[i as int].reverted().with_option(o)));
        }
        done = done + 1;
        assert(rest@ =~= all.skip(done as int));
    }
    assert(all.take(done as int) =~= all);
}

} // verus!
