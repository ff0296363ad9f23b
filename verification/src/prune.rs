//! Pruning branches: the session state around a selectable list of
//! local branch names — the protected branch filtered out up front —
//! and the batch deletion plan for a finished selection.

use vstd::prelude::*;
use crate::list::{wrap_all, selected_values, List};

verus! {

/// The branch name that the protected-branch policy keeps out of
/// candidacy: it can never be shown, selected or deleted.
pub open spec fn is_protected(name: Seq<char>) -> bool {
    name == "master"@
}

/// The branch candidates: the given names in their given order, the
/// protected branch left out.
pub open spec fn candidates(names: Seq<String>) -> Seq<String>
    decreases names.len(),
{
    if names.len() == 0 {
        Seq::empty()
    } else if is_protected(names.last()@) {
        candidates(names.drop_last())
    } else {
        candidates(names.drop_last()).push(names.last())
    }
}

/// The session state of the branch pruner: a selectable list of the
/// branch candidates.
pub struct App {
    pub list: List<String>,
}

impl App {
    /// Open a session over the enumerated branch names: the protected
    /// branch is dropped, every candidate starts unselected, and the
    /// cursor sits on the first candidate if there is one.
    pub fn new(branches: Vec<String>) -> (r: App)
        ensures
            r.list.inv(),
            r.list.items@ == wrap_all(candidates(branches@)),
            r.list.cursor == (if candidates(branches@).len() > 0 {
                Option::Some(0usize)
            } else {
                Option::<usize>::None
            }),
    {
        let master: String = "master".to_owned();
        let ghost orig = branches@;
        let mut branches = branches;
        let mut kept: Vec<String> = Vec::new();

        while branches.len() > 0
            invariant
                master@ == "master"@,
                branches@.len() <= orig.len(),
                branches@ == orig.skip(orig.len() - branches@.len()),
                kept@ == candidates(orig.take(orig.len() - branches@.len())),
            decreases branches@.len(),
        {
            let ghost p = orig.len() - branches@.len();
            let name = branches.remove(0);
            proof {
                assert(orig.skip(p as int)[0] == orig[p as int]);
                assert(name == orig[p as int]);
                assert(branches@ =~= orig.skip(p + 1));
                assert(orig.take(p + 1).drop_last() =~= orig.take(p as int));
                assert(orig.take(p + 1).last() == orig[p as int]);
            }
            if !name.eq(&master) {
                kept.push(name);
            }
        }

        proof {
            assert(orig.take(orig.len() as int) =~= orig);
        }
        App { list: List::new(kept) }
    }

    /// The selected branch names, in candidate order. The session
    /// itself is left as it is.
    pub fn selected(&self) -> (r: Vec<String>)
        ensures
            r@ == selected_values(self.list.items@),
    {
        let ghost items = self.list.items@;
        let mut out: Vec<String> = Vec::new();
        let mut i: usize = 0;

        while i < self.list.items.len()
            invariant
                i <= items.len(),
                items == self.list.items@,
                out@ == selected_values(items.take(i as int)),
            decreases items.len() - i,
        {
            proof {
                assert(items.take(i + 1).drop_last() =~= items.take(i as int));
                assert(items.take(i + 1).last() == items[i as int]);
            }
            let item = &self.list.items[i];
            if item.selected {
                out.push(item.value.clone());
            }
            i = i + 1;
        }

        proof {
            assert(items.take(items.len() as int) =~= items);
        }
        out
    }
}

/// Batch policy: the single external deletion that a finished
/// selection calls for — all selected names at once — or nothing at
/// all when the selection is empty. An empty selection is a successful
/// no-op and must not reach the external tool.
pub fn batch_request(selected: Vec<String>) -> (r: Option<Vec<String>>)
    ensures
        match r {
            Option::None => selected@.len() == 0,
            Option::Some(names) => names@ == selected@ && selected@.len() > 0,
        },
{
    if selected.len() == 0 {
        Option::None
    } else {
        Option::Some(selected)
    }
}

} // verus!
