//! Canned stores of numbered captions, served by index.

use vstd::prelude::*;
use crate::{LEN_FACTS, LEN_PRINCIPLES, StoreCount};
use crate::errors::{DataStoreError, io_not_found};
use crate::ui::dec_rep;
use crate::ui::usize_to_decimal;

verus! {

/// The caption of the canned principle with the given index.
pub open spec fn principle_caption(i: int) -> Seq<char> {
    "principle "@ + dec_rep(i) + ":"@
}

/// The caption of the canned fact with the given index.
pub open spec fn fact_caption(i: int) -> Seq<char> {
    "fact "@ + dec_rep(i) + ":"@
}

/// The canned principle caption stored under the given index: defined for
/// indices 1 through the principle count, not found otherwise.
pub fn get_principles_testcases(index: u8) -> (r: Result<String, DataStoreError>)
    ensures
        1 <= index <= 14 ==> (r matches Ok(t) && t@ == principle_caption(index as int)),
        !(1 <= index <= 14) ==> (r matches Err(e) && e is IOError),
{
    let count: usize = StoreCount::Principles.count();
    let mut cache: Vec<String> = Vec::new();
    let mut i: usize = 1;
    while i <= count
        invariant
            count == LEN_PRINCIPLES,
            i <= count + 1,
            1 <= i,
            cache@.len() == i - 1,
            forall|j: int| 0 <= j < i - 1 ==> (#[trigger] cache@[j])@ == principle_caption(j + 1),
        decreases count + 1 - i,
    {
        let mut caption: String = "principle ".to_owned();
        let digits: String = usize_to_decimal(i);
        caption.append(digits.as_str());
        caption.append(":");
        cache.push(caption);
        i += 1;
    }
    if 1 <= index && index as usize <= count {
        Ok(cache[index as usize - 1].clone())
    } else {
        Err(DataStoreError::IOError(io_not_found("Principle not found")))
    }
}

/// The canned fact caption stored under the given index: defined for indices
/// 1 through the fact count, not found otherwise.
pub fn get_facts_testcase(index: u8) -> (r: Result<String, DataStoreError>)
    ensures
        1 <= index <= 12 ==> (r matches Ok(t) && t@ == fact_caption(index as int)),
        !(1 <= index <= 12) ==> (r matches Err(e) && e is IOError),
{
    let count: usize = StoreCount::Facts.count();
    let mut cache: Vec<String> = Vec::new();
    let mut i: usize = 1;
    while i <= count
        invariant
            count == LEN_FACTS,
            i <= count + 1,
            1 <= i,
            cache@.len() == i - 1,
            forall|j: int| 0 <= j < i - 1 ==> (#[trigger] cache@[j])@ == fact_caption(j + 1),
        decreases count + 1 - i,
    {
        let mut caption: String = "fact ".to_owned();
        let digits: String = usize_to_decimal(i);
        caption.append(digits.as_str());
        caption.append(":");
        cache.push(caption);
        i += 1;
    }
    if 1 <= index && index as usize <= count {
        Ok(cache[index as usize - 1].clone())
    } else {
        Err(DataStoreError::IOError(io_not_found("Fact not found")))
    }
}

} // verus!
