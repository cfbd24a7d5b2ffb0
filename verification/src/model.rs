//! Document models of the REST backend's store.

use vstd::prelude::*;

verus! {

/// A fact document, as the backend's document store keeps it.
#[derive(Clone, Debug, PartialEq, Eq)]
pub struct Facts {
    /// Index of the item.
    pub id: i32,
    /// Content of the item.
    pub title: String,
}

/// A principle document, as the backend's document store keeps it.
#[derive(Clone, Debug, PartialEq, Eq)]
pub struct Principles {
    /// Index of the item.
    pub id: i32,
    /// Content of the item.
    pub title: String,
}

} // verus!
