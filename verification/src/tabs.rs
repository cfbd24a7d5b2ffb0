//! Tab identities and the wrapping tab cursor.

use vstd::prelude::*;
use vstd::arithmetic::div_mod::{lemma_add_mod_noop, lemma_mod_self_0, lemma_small_mod};

verus! {

/// Identity of a top-level navigation destination.
#[derive(Clone, Copy, Debug, PartialEq, Eq, Structural)]
pub enum TabMode {
    Home,
    Facts,
    Principles,
    Input,
    PopupHelp,
}

impl TabMode {
    /// Display label of the tab.
    pub fn label(&self) -> (r: &'static str)
        ensures
            *self == TabMode::Home ==> r@ == "Home"@,
            *self == TabMode::Facts ==> r@ == "Facts"@,
            *self == TabMode::Principles ==> r@ == "Principles"@,
            *self == TabMode::Input ==> r@ == "Input"@,
            *self == TabMode::PopupHelp ==> r@ == "Help"@,
    {
        match self {
            TabMode::Home => "Home",
            TabMode::Facts => "Facts",
            TabMode::Principles => "Principles",
            TabMode::Input => "Input",
            TabMode::PopupHelp => "Help",
        }
    }
}

/// Index after advancing one step through `n` tabs, wrapping at the end.
pub open spec fn next_index(i: int, n: int) -> int {
    (i + 1) % n
}

/// Index after retreating one step through `n` tabs, wrapping at zero.
pub open spec fn prev_index(i: int, n: int) -> int {
    if i == 0 {
        n - 1
    } else {
        i - 1
    }
}

/// Index reached from `i` after `k` forward steps through `n` tabs.
pub open spec fn iter_next_index(i: int, n: int, k: nat) -> int
    decreases k,
{
    if k == 0 {
        i
    } else {
        next_index(iter_next_index(i, n, (k - 1) as nat), n)
    }
}

/// Advancing `k` times lands on `(i + k) % n`.
pub proof fn lemma_iter_next_index(i: int, n: int, k: nat)
    requires
        0 <= i < n,
    ensures
        iter_next_index(i, n, k) == (i + k) % n,
    decreases k,
{
    if k == 0 {
        lemma_small_mod(i as nat, n as nat);
    } else {
        lemma_iter_next_index(i, n, (k - 1) as nat);
        lemma_add_mod_noop(i + k - 1, 1, n);
        if n == 1 {
            lemma_mod_self_0(n);
        } else {
            lemma_small_mod(1nat, n as nat);
        }
    }
}

/// Advancing through `n` tabs `n` times returns the index to its starting
/// value: the cyclic group property of tab navigation.
pub proof fn lemma_next_wraps_to_start(i: int, n: int)
    requires
        0 <= i < n,
    ensures
        iter_next_index(i, n, n as nat) == i,
{
    lemma_iter_next_index(i, n, n as nat);
    lemma_add_mod_noop(i, n, n);
    lemma_mod_self_0(n);
    lemma_small_mod(i as nat, n as nat);
}

/// The tabs the application shows, in display order.
pub open spec fn default_tab_modes() -> Seq<TabMode> {
    seq![TabMode::Home, TabMode::Facts, TabMode::Principles]
}

/// The tabs the application shows, in display order.
pub fn default_tabs() -> (r: Vec<TabMode>)
    ensures
        r@ =~= default_tab_modes(),
{
    let mut r: Vec<TabMode> = Vec::new();
    r.push(TabMode::Home);
    r.push(TabMode::Facts);
    r.push(TabMode::Principles);
    r
}

/// An ordered, non-empty sequence of tabs together with the index of the
/// currently active one.
pub struct TabsState<T> {
    /// Titles (or identities) of the tabs, in display order.
    pub titles: Vec<T>,
    /// Index of the active tab; always within `titles`.
    pub index: usize,
}

impl<T> TabsState<T> {
    /// The cursor points at an existing tab.
    pub open spec fn wf(&self) -> bool {
        self.index < self.titles@.len()
    }

    /// Start on the first of a non-empty sequence of tabs.
    pub fn new(tabs: Vec<T>) -> (r: Self)
        requires
            tabs@.len() > 0,
        ensures
            r.titles == tabs,
            r.index == 0,
            r.wf(),
    {
        Self { titles: tabs, index: 0usize }
    }

    /// Advance to the following tab, wrapping past the last one.
    pub fn next(&mut self)
        requires
            old(self).wf(),
        ensures
            final(self).titles == old(self).titles,
            final(self).index == next_index(old(self).index as int, old(self).titles@.len() as int),
            final(self).wf(),
    {
        let len_total: usize = self.titles.len();
        self.index = (self.index + 1) % len_total;
    }

    /// Retreat to the preceding tab, wrapping to the last one from the first.
    pub fn previous(&mut self)
        requires
            old(self).wf(),
        ensures
            final(self).titles == old(self).titles,
            final(self).index == prev_index(old(self).index as int, old(self).titles@.len() as int),
            final(self).wf(),
    {
        if self.index > 0 {
            self.index -= 1;
        } else {
            let len_total: usize = self.titles.len();
            self.index = len_total - 1;
        }
    }

    /// Index of the currently active tab.
    pub fn cur_list_item_idx(&mut self) -> (r: usize)
        ensures
            *final(self) == *old(self),
            r == old(self).index,
    {
        self.index
    }
}

} // verus!
