//! Data models and the in-memory store of facts and principles.
//!
//! The store keeps titles keyed by numeric id. Insertion overwrites an
//! existing entry with the same id, so ids stay unique, as in a map.

use vstd::prelude::*;
use crate::errors::DataStoreError;
use crate::util::index_for_day;
use crate::{LEN_FACTS, LEN_PRINCIPLES};

verus! {

/// Facts data model: one record served by the data provider.
#[derive(Debug, Clone)]
pub struct Fact {
    /// `id` of the fact.
    pub id: u32,
    /// `title` or content of the fact.
    pub title: String,
}

/// Principle data model: one record served by the data provider.
#[derive(Debug, Clone)]
pub struct Principle {
    /// `id` of the principle.
    pub id: u32,
    /// `title` or content of the principle.
    pub title: String,
}

/// In-memory database handed to the application at startup: titles keyed by
/// numeric id, kept in insertion order.
#[derive(Debug)]
pub struct DB {
    /// Fact titles keyed by id.
    pub facts: Vec<(u32, String)>,
    /// Principle titles keyed by id.
    pub principles: Vec<(u32, String)>,
}

/// Some entry carries the given id.
pub open spec fn has_id(entries: Seq<(u32, String)>, id: u32) -> bool {
    exists|j: int| 0 <= j < entries.len() && entries[j].0 == id
}

/// No two entries carry the same id.
pub open spec fn ids_unique(entries: Seq<(u32, String)>) -> bool {
    forall|j: int, k: int| 0 <= j < k < entries.len() ==> entries[j].0 != entries[k].0
}

/// The id and title of each fact record, in order.
pub open spec fn fact_pairs(records: Seq<Fact>) -> Seq<(u32, String)> {
    records.map_values(|f: Fact| (f.id, f.title))
}

/// The id and title of each principle record, in order.
pub open spec fn principle_pairs(records: Seq<Principle>) -> Seq<(u32, String)> {
    records.map_values(|p: Principle| (p.id, p.title))
}

impl DB {
    /// Both sides of the store behave as maps: ids are unique.
    pub open spec fn wf(&self) -> bool {
        ids_unique(self.facts@) && ids_unique(self.principles@)
    }
}

/// Insert a title under an id, overwriting the entry that already carries
/// that id, if any.
pub fn store_insert(entries: &mut Vec<(u32, String)>, id: u32, title: String)
    requires
        ids_unique(old(entries)@),
    ensures
        ids_unique(final(entries)@),
        has_id(final(entries)@, id),
        !has_id(old(entries)@, id) ==> final(entries)@ == old(entries)@.push((id, title)),
        has_id(old(entries)@, id) ==> exists|j: int|
            0 <= j < old(entries)@.len() && old(entries)@[j].0 == id && final(entries)@ == old(
                entries,
            )@.update(j, (id, title)),
{
    let n: usize = entries.len();
    let mut i: usize = 0;
    while i < n
        invariant
            n == entries@.len(),
            i <= n,
            ids_unique(entries@),
            *entries == *old(entries),
            forall|j: int| 0 <= j < i ==> entries@[j].0 != id,
        decreases n - i,
    {
        if entries[i].0 == id {
            entries.set(i, (id, title));
            proof {
                assert(entries@[i as int].0 == id);
            }
            return;
        }
        i += 1;
    }
    entries.push((id, title));
    proof {
        assert(entries@[entries@.len() - 1].0 == id);
    }
}

/// Look up the title stored under an id.
pub fn store_get(entries: &Vec<(u32, String)>, id: u32) -> (r: Option<String>)
    ensures
        r is Some <==> has_id(entries@, id),
        r matches Some(t) ==> exists|j: int|
            0 <= j < entries@.len() && entries@[j].0 == id && entries@[j].1 == t,
{
    let n: usize = entries.len();
    let mut i: usize = 0;
    while i < n
        invariant
            n == entries@.len(),
            i <= n,
            forall|j: int| 0 <= j < i ==> entries@[j].0 != id,
        decreases n - i,
    {
        if entries[i].0 == id {
            return Some(entries[i].1.clone());
        }
        i += 1;
    }
    None
}

/// The titles of the entries, in store order.
pub fn get_map_val(entries: &Vec<(u32, String)>) -> (r: Vec<String>)
    ensures
        r@ =~= entries@.map_values(|e: (u32, String)| e.1),
{
    let n: usize = entries.len();
    let mut r: Vec<String> = Vec::new();
    let mut i: usize = 0;
    while i < n
        invariant
            n == entries@.len(),
            i <= n,
            r@.len() == i,
            forall|j: int| 0 <= j < i ==> r@[j] == entries@[j].1,
        decreases n - i,
    {
        r.push(entries[i].1.clone());
        i += 1;
    }
    r
}

/// Insert every pair in order into a fresh store: ids come out unique, every
/// given id is present, and every entry comes from one of the given pairs.
pub fn store_insert_all(pairs: &Vec<(u32, String)>) -> (r: Vec<(u32, String)>)
    ensures
        ids_unique(r@),
        forall|i: int| 0 <= i < pairs@.len() ==> has_id(r@, (#[trigger] pairs@[i]).0),
        forall|j: int| 0 <= j < r@.len() ==> pairs@.contains(#[trigger] r@[j]),
{
    let mut r: Vec<(u32, String)> = Vec::new();
    let mut i: usize = 0;
    while i < pairs.len()
        invariant
            i <= pairs@.len(),
            ids_unique(r@),
            forall|k: int| 0 <= k < i ==> has_id(r@, (#[trigger] pairs@[k]).0),
            forall|j: int| 0 <= j < r@.len() ==> pairs@.take(i as int).contains(#[trigger] r@[j]),
        decreases pairs@.len() - i,
    {
        let ghost pre = r@;
        let pair: (u32, String) = (pairs[i].0, pairs[i].1.clone());
        store_insert(&mut r, pair.0, pair.1);
        proof {
            let post = r@;
            let p = pairs@[i as int];
            assert(pair == p);
            assert forall|k: int| 0 <= k < i + 1 implies has_id(post, (#[trigger] pairs@[k]).0) by {
                if k == i as int {
                    assert(has_id(post, p.0));
                } else {
                    let jk = choose|jk: int| 0 <= jk < pre.len() && pre[jk].0 == pairs@[k].0;
                    if has_id(pre, p.0) {
                        let j0 = choose|j0: int|
                            0 <= j0 < pre.len() && pre[j0].0 == p.0 && post == pre.update(
                                j0,
                                (p.0, p.1),
                            );
                        if jk == j0 {
                            assert(post[j0].0 == pairs@[k].0);
                        } else {
                            assert(post[jk] == pre[jk]);
                        }
                    } else {
                        assert(post == pre.push((p.0, p.1)));
                        assert(post[jk] == pre[jk]);
                    }
                    assert(has_id(post, pairs@[k].0));
                }
            }
            let t1 = pairs@.take(i + 1);
            assert(t1[i as int] == p);
            assert forall|j: int| 0 <= j < post.len() implies t1.contains(#[trigger] post[j]) by {
                let t0 = pairs@.take(i as int);
                if has_id(pre, p.0) {
                    let j0 = choose|j0: int|
                        0 <= j0 < pre.len() && pre[j0].0 == p.0 && post == pre.update(
                            j0,
                            (p.0, p.1),
                        );
                    if j == j0 {
                        assert(post[j] == (p.0, p.1));
                        assert(t1[i as int] == post[j]);
                    } else {
                        assert(post[j] == pre[j]);
                        let k = choose|k: int| 0 <= k < t0.len() && t0[k] == pre[j];
                        assert(t1[k] == post[j]);
                    }
                } else {
                    assert(post == pre.push((p.0, p.1)));
                    if j < pre.len() {
                        assert(post[j] == pre[j]);
                        let k = choose|k: int| 0 <= k < t0.len() && t0[k] == pre[j];
                        assert(t1[k] == post[j]);
                    } else {
                        assert(post[j] == (p.0, p.1));
                        assert(t1[i as int] == post[j]);
                    }
                }
            }
        }
        i += 1;
    }
    proof {
        assert(pairs@.take(pairs@.len() as int) =~= pairs@);
    }
    r
}

/// The id and title of each fact record, as a vector of pairs.
pub fn fact_pairs_vec(records: &Vec<Fact>) -> (r: Vec<(u32, String)>)
    ensures
        r@ =~= fact_pairs(records@),
{
    let n: usize = records.len();
    let mut r: Vec<(u32, String)> = Vec::new();
    let mut i: usize = 0;
    while i < n
        invariant
            n == records@.len(),
            i <= n,
            r@.len() == i,
            forall|j: int| 0 <= j < i ==> r@[j] == (records@[j].id, records@[j].title),
        decreases n - i,
    {
        r.push((records[i].id, records[i].title.clone()));
        i += 1;
    }
    r
}

/// The id and title of each principle record, as a vector of pairs.
pub fn principle_pairs_vec(records: &Vec<Principle>) -> (r: Vec<(u32, String)>)
    ensures
        r@ =~= principle_pairs(records@),
{
    let n: usize = records.len();
    let mut r: Vec<(u32, String)> = Vec::new();
    let mut i: usize = 0;
    while i < n
        invariant
            n == records@.len(),
            i <= n,
            r@.len() == i,
            forall|j: int| 0 <= j < i ==> r@[j] == (records@[j].id, records@[j].title),
        decreases n - i,
    {
        r.push((records[i].id, records[i].title.clone()));
        i += 1;
    }
    r
}

/// Build the database from fetched records; a later record with an id seen
/// before overwrites the earlier title, as a map insert would.
pub fn db_from_records(facts: Vec<Fact>, principles: Vec<Principle>) -> (db: DB)
    ensures
        db.wf(),
        forall|i: int| 0 <= i < facts@.len() ==> has_id(db.facts@, (#[trigger] facts@[i]).id),
        forall|j: int| 0 <= j < db.facts@.len() ==> fact_pairs(facts@).contains(
            #[trigger] db.facts@[j],
        ),
        forall|i: int|
            0 <= i < principles@.len() ==> has_id(db.principles@, (#[trigger] principles@[i]).id),
        forall|j: int|
            0 <= j < db.principles@.len() ==> principle_pairs(principles@).contains(
                #[trigger] db.principles@[j],
            ),
{
    let f_pairs: Vec<(u32, String)> = fact_pairs_vec(&facts);
    let p_pairs: Vec<(u32, String)> = principle_pairs_vec(&principles);
    let fact_entries: Vec<(u32, String)> = store_insert_all(&f_pairs);
    let principle_entries: Vec<(u32, String)> = store_insert_all(&p_pairs);
    proof {
        assert forall|i: int| 0 <= i < facts@.len() implies has_id(
            fact_entries@,
            (#[trigger] facts@[i]).id,
        ) by {
            assert(f_pairs@[i] == (facts@[i].id, facts@[i].title));
        }
        assert forall|i: int| 0 <= i < principles@.len() implies has_id(
            principle_entries@,
            (#[trigger] principles@[i]).id,
        ) by {
            assert(p_pairs@[i] == (principles@[i].id, principles@[i].title));
        }
    }
    DB { facts: fact_entries, principles: principle_entries }
}

/// Relies on `rand`: `thread_rng().gen_range(0..10)` samples the non-empty
/// range `0..10`, so the result is below 10; nothing more is promised of a
/// random value.
#[verifier::external_body]
fn random_digit() -> (r: u8)
    ensures
        r < 10,
{
    rand::Rng::gen_range(&mut rand::thread_rng(), 0..10u8)
}

/// The side of the store the given digit picks: an even digit picks from the
/// facts, an odd one from the principles.
pub open spec fn pick_entries(db: DB, digit: u8) -> Seq<(u32, String)> {
    if digit % 2 == 0 {
        db.facts@
    } else {
        db.principles@
    }
}

/// The id the given day denotes on the side the digit picks.
pub open spec fn pick_index(digit: u8, day: int) -> int {
    if digit % 2 == 0 {
        day % (LEN_FACTS as int) + 1
    } else {
        day % (LEN_PRINCIPLES as int) + 1
    }
}

/// The title the day's pick denotes, given the random digit and the day
/// number: an even digit picks from the facts, an odd one from the
/// principles, at the id derived from the day. Succeeds exactly when the day
/// is not before the calendar's origin and the store holds that id.
pub fn pick_fact_or_principle(db: &DB, digit: u8, day: i32) -> (r: Result<String, DataStoreError>)
    ensures
        r is Ok <==> day >= 0 && has_id(pick_entries(*db, digit), pick_index(digit, day as int) as u32),
        r matches Ok(t) ==> exists|j: int|
            0 <= j < pick_entries(*db, digit).len() && (#[trigger] pick_entries(*db, digit)[j]).0
                == pick_index(digit, day as int) as u32 && pick_entries(*db, digit)[j].1 == t,
        r is Err ==> r matches Err(DataStoreError::Unknown),
{
    let result: Option<String> = if day < 0 {
        None
    } else if digit % 2 == 0 {
        let idx: i32 = index_for_day(day, LEN_FACTS);
        store_get(&db.facts, idx as u32)
    } else {
        let idx: i32 = index_for_day(day, LEN_PRINCIPLES);
        store_get(&db.principles, idx as u32)
    };
    match result {
        Some(r) => Ok(r),
        None => Err(DataStoreError::Unknown),
    }
}

/// Returns today's fact or principle from the database: a random even digit
/// picks a fact, an odd one a principle, at the id derived from today's day
/// number. Whatever the clock and the random draw return, any title handed
/// back is stored in the database.
pub fn get_todays_fact_or_principle(db: &mut DB) -> (r: Result<String, DataStoreError>)
    ensures
        *final(db) == *old(db),
        r matches Ok(t) ==> (exists|j: int|
            0 <= j < old(db).facts@.len() && (#[trigger] old(db).facts@[j]).1 == t) || (exists|
            j: int,
        |
            0 <= j < old(db).principles@.len() && (#[trigger] old(db).principles@[j]).1 == t),
        r is Err ==> r matches Err(DataStoreError::Unknown),
{
    let digit: u8 = random_digit();
    let day: i32 = crate::util::Date::new().weekday_local;
    let result: Result<String, DataStoreError> = pick_fact_or_principle(db, digit, day);
    proof {
        match &result {
            Ok(t) => {
                let j = choose|j: int|
                    0 <= j < pick_entries(*db, digit).len() && (
                    #[trigger] pick_entries(*db, digit)[j]).0 == pick_index(digit, day as int)
                        as u32 && pick_entries(*db, digit)[j].1 == *t;
                if digit % 2 == 0 {
                    assert(0 <= j < old(db).facts@.len() && old(db).facts@[j].1 == *t);
                } else {
                    assert(0 <= j < old(db).principles@.len() && old(db).principles@[j].1 == *t);
                }
            },
            Err(_) => {},
        }
    }
    result
}

} // verus!
