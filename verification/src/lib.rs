//! Navigation state machine for a text-mode "facts & principles" viewer.
//!
//! The crate tracks which tab is active, which list item is selected, whether
//! a modal help popup is showing, and how input focus moves between a static
//! navigation list and content lists loaded from a remote source.

use vstd::prelude::*;

pub mod app;
pub mod errors;
pub mod list;
pub mod model;
pub mod store;
pub mod tabs;
pub mod testcases;
pub mod ui;
pub mod util;
pub mod words;

verus! {

/// Number of facts served by the data provider.
pub const LEN_FACTS: usize = 12;

/// Number of principles served by the data provider.
pub const LEN_PRINCIPLES: usize = 14;

/// Which store is meant, where a count of items is asked for.
#[derive(Debug, Clone, Copy, PartialEq, Eq, Structural)]
pub enum StoreCount {
    /// The store of facts.
    Facts,
    /// The store of principles.
    Principles,
}

impl StoreCount {
    /// How many items the store holds.
    pub fn count(&self) -> (r: usize)
        ensures
            *self == StoreCount::Facts ==> r == LEN_FACTS,
            *self == StoreCount::Principles ==> r == LEN_PRINCIPLES,
    {
        match self {
            StoreCount::Facts => LEN_FACTS,
            StoreCount::Principles => LEN_PRINCIPLES,
        }
    }
}

/// Response shape of the facts listing.
#[derive(Debug, Clone)]
pub struct DioFacts {
    /// The facts, in listing order.
    pub facts: Vec<String>,
}

/// Response shape of the principles listing.
#[derive(Debug, Clone)]
pub struct DioPrinciples {
    /// The principles, in listing order.
    pub principles: Vec<String>,
}

} // verus!
