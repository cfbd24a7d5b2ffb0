//! Selectable lists: an ordered sequence of items with at most one
//! highlighted index, and wrapping cursor movement.

use vstd::prelude::*;
use vstd::arithmetic::div_mod::{lemma_add_mod_noop, lemma_mod_self_0, lemma_small_mod};

verus! {

/// Tag naming which logical list is meant, so that the application can track
/// an "active" list without holding a reference into itself.
#[derive(Clone, Copy, Debug, PartialEq, Eq, Structural)]
pub enum ListName {
    /// List of facts.
    Facts,
    /// List of principles.
    Principles,
    /// List of help shortcuts.
    Help,
    /// List of tab titles, used to jump between tabs.
    Tabs,
    /// No list is active.
    NoList,
}

/// Index reached from index `i` by one forward step through `n` items,
/// wrapping past the last index.
pub open spec fn step_sel(i: int, n: int) -> int {
    if i + 1 >= n {
        0
    } else {
        i + 1
    }
}

/// Index reached from index `i` by one backward step through `n` items,
/// wrapping to the last index from zero.
pub open spec fn step_sel_back(i: int, n: int) -> int {
    if i == 0 {
        n - 1
    } else {
        i - 1
    }
}

/// Selection reached from `sel` by one forward step through `n` items: an
/// empty selection starts at index 0.
pub open spec fn next_selection(sel: Option<usize>, n: int) -> int {
    match sel {
        Option::None => 0,
        Option::Some(i) => step_sel(i as int, n),
    }
}

/// Selection reached from `sel` by one backward step through `n` items: an
/// empty selection starts at index 0.
pub open spec fn prev_selection(sel: Option<usize>, n: int) -> int {
    match sel {
        Option::None => 0,
        Option::Some(i) => step_sel_back(i as int, n),
    }
}

/// Index reached from `i` after `k` forward steps through `n` items.
pub open spec fn iter_step_sel(i: int, n: int, k: nat) -> int
    decreases k,
{
    if k == 0 {
        i
    } else {
        step_sel(iter_step_sel(i, n, (k - 1) as nat), n)
    }
}

/// Selection reached after `k >= 1` forward steps starting from no selection:
/// the first step selects index 0, each later step advances by one.
pub open spec fn iter_next_selection_from_none(n: int, k: nat) -> int {
    iter_step_sel(0, n, (k - 1) as nat)
}

/// One forward step from a valid index is a step modulo `n`.
pub proof fn lemma_step_sel_is_mod(i: int, n: int)
    requires
        0 <= i < n,
    ensures
        step_sel(i, n) == (i + 1) % n,
{
    if i + 1 == n {
        lemma_mod_self_0(n);
    } else {
        lemma_small_mod((i + 1) as nat, n as nat);
    }
}

/// Stepping forward `k` times from a valid index lands on `(i + k) % n`.
pub proof fn lemma_iter_step_sel(i: int, n: int, k: nat)
    requires
        0 <= i < n,
    ensures
        iter_step_sel(i, n, k) == (i + k) % n,
    decreases k,
{
    if k == 0 {
        lemma_small_mod(i as nat, n as nat);
    } else {
        lemma_iter_step_sel(i, n, (k - 1) as nat);
        lemma_mod_bound_int(i + k - 1, n);
        lemma_step_sel_is_mod((i + k - 1) % n, n);
        lemma_add_mod_noop(i + k - 1, 1, n);
        if n == 1 {
            lemma_mod_self_0(n);
        } else {
            lemma_small_mod(1nat, n as nat);
        }
    }
}

/// A remainder by a positive divisor lies in `[0, n)`.
proof fn lemma_mod_bound_int(x: int, n: int)
    requires
        n > 0,
    ensures
        0 <= x % n < n,
{
}

/// From no selection, `k >= 1` forward steps through `n` items select index
/// `(k - 1) % n`; in particular, `n + 1` steps return the selection to index
/// 0, and `n` steps land on the last index.
pub proof fn lemma_select_next_from_none(n: int, k: nat)
    requires
        n > 0,
        k >= 1,
    ensures
        iter_next_selection_from_none(n, k) == (k - 1) % n,
{
    lemma_iter_step_sel(0, n, (k - 1) as nat);
}

/// One backward step from index 0 through `n` items selects the last index.
pub proof fn lemma_select_previous_at_zero(n: int)
    requires
        n > 0,
    ensures
        prev_selection(Option::Some(0usize), n) == n - 1,
{
}

/// An ordered sequence of items plus an optional selected index and a tag
/// naming which logical list this is.
pub struct StatefulList<T> {
    /// Currently highlighted index, if any.
    pub selected: Option<usize>,
    /// The items, in display order.
    pub items: Vec<T>,
    /// Which logical list this is.
    pub name: ListName,
}

impl<T> StatefulList<T> {
    /// A selected index, when present, points at an existing item.
    pub open spec fn wf(&self) -> bool {
        self.selected matches Option::Some(i) ==> i < self.items@.len()
    }

    /// Functional model of `next`.
    pub open spec fn spec_next(self) -> Self {
        if self.items@.len() == 0 {
            self
        } else {
            StatefulList {
                selected: Option::Some(
                    next_selection(self.selected, self.items@.len() as int) as usize,
                ),
                items: self.items,
                name: self.name,
            }
        }
    }

    /// Functional model of `previous`.
    pub open spec fn spec_prev(self) -> Self {
        if self.items@.len() == 0 {
            self
        } else {
            StatefulList {
                selected: Option::Some(
                    prev_selection(self.selected, self.items@.len() as int) as usize,
                ),
                items: self.items,
                name: self.name,
            }
        }
    }

    /// Functional model of `unselect`.
    pub open spec fn spec_unselect(self) -> Self {
        StatefulList { selected: Option::None, items: self.items, name: self.name }
    }

    /// A list with the given items and tag, and nothing selected.
    pub fn with_items(items: Vec<T>, list_name: ListName) -> (r: Self)
        ensures
            r.items == items,
            r.name == list_name,
            r.selected is None,
            r.wf(),
    {
        Self { selected: Option::None, items, name: list_name }
    }

    /// Move the highlight one item forward, wrapping at the end; from no
    /// selection, select the first item. On an empty list this is a no-op.
    pub fn next(&mut self)
        requires
            old(self).wf(),
        ensures
            final(self).items == old(self).items,
            final(self).name == old(self).name,
            old(self).items@.len() == 0 ==> final(self).selected == old(self).selected,
            old(self).items@.len() > 0 ==> final(self).selected == Option::Some(
                next_selection(old(self).selected, old(self).items@.len() as int) as usize,
            ),
            *final(self) == old(self).spec_next(),
            final(self).wf(),
    {
        if self.items.len() == 0 {
            return;
        }
        let index: usize = match self.selected {
            Option::Some(i) => {
                if i >= self.items.len() - 1 {
                    0
                } else {
                    i + 1
                }
            },
            Option::None => 0,
        };
        self.selected = Option::Some(index);
    }

    /// Move the highlight one item backward, wrapping to the last index from
    /// zero; from no selection, select the first item. On an empty list this
    /// is a no-op.
    pub fn previous(&mut self)
        requires
            old(self).wf(),
        ensures
            final(self).items == old(self).items,
            final(self).name == old(self).name,
            old(self).items@.len() == 0 ==> final(self).selected == old(self).selected,
            old(self).items@.len() > 0 ==> final(self).selected == Option::Some(
                prev_selection(old(self).selected, old(self).items@.len() as int) as usize,
            ),
            *final(self) == old(self).spec_prev(),
            final(self).wf(),
    {
        if self.items.len() == 0 {
            return;
        }
        let index: usize = match self.selected {
            Option::Some(i) => {
                if i == 0 {
                    self.items.len() - 1
                } else {
                    i - 1
                }
            },
            Option::None => 0,
        };
        self.selected = Option::Some(index);
    }

    /// Clear the selection.
    pub fn unselect(&mut self)
        ensures
            final(self).items == old(self).items,
            final(self).name == old(self).name,
            final(self).selected is None,
            *final(self) == old(self).spec_unselect(),
            final(self).wf(),
    {
        self.selected = Option::None;
    }
}

} // verus!
