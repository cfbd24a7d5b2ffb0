use dio::errors::DataStoreError;
use dio::model::{Facts, Principles};
use dio::{DioFacts, DioPrinciples};
use dio::store::{
    db_from_records, get_map_val, get_todays_fact_or_principle, pick_fact_or_principle,
    store_get, store_insert, Fact, Principle, DB,
};
use dio::testcases::{get_facts_testcase, get_principles_testcases};
use dio::ui::{index_from, split_title_prefix_id, usize_to_decimal, Chunk};
use dio::util::{idx_today, index_for_day, sum_list};
use dio::{StoreCount, LEN_FACTS, LEN_PRINCIPLES};

fn full_db() -> DB {
    let facts: Vec<(u32, String)> = (1..=12u32).map(|i| (i, format!("fact {i}"))).collect();
    let principles: Vec<(u32, String)> =
        (1..=14u32).map(|i| (i, format!("principle {i}"))).collect();
    DB { facts, principles }
}

#[test]
fn insert_overwrites_same_id() {
    let mut entries: Vec<(u32, String)> = Vec::new();
    store_insert(&mut entries, 1, String::from("a"));
    store_insert(&mut entries, 2, String::from("b"));
    store_insert(&mut entries, 1, String::from("c"));
    assert_eq!(entries.len(), 2);
    assert_eq!(store_get(&entries, 1), Some(String::from("c")));
    assert_eq!(store_get(&entries, 2), Some(String::from("b")));
    assert_eq!(store_get(&entries, 3), None);
}

#[test]
fn map_values_in_store_order() {
    let entries: Vec<(u32, String)> =
        vec![(7, String::from("seven")), (3, String::from("three"))];
    assert_eq!(get_map_val(&entries), vec!["seven", "three"]);
}

#[test]
fn records_build_unique_store() {
    let facts = vec![
        Fact { id: 1, title: String::from("one") },
        Fact { id: 2, title: String::from("two") },
        Fact { id: 1, title: String::from("one again") },
    ];
    let principles = vec![Principle { id: 9, title: String::from("nine") }];
    let db = db_from_records(facts, principles);
    assert_eq!(db.facts.len(), 2);
    assert_eq!(store_get(&db.facts, 1), Some(String::from("one again")));
    assert_eq!(store_get(&db.principles, 9), Some(String::from("nine")));
}

#[test]
fn pick_is_exact_on_known_inputs() {
    let db = full_db();
    // Even digit, day 0: facts at id 0 % 12 + 1 == 1.
    assert_eq!(pick_fact_or_principle(&db, 0, 0).expect("held id"), "fact 1");
    // Odd digit, day 3: principles at id 3 % 14 + 1 == 4.
    assert_eq!(pick_fact_or_principle(&db, 7, 3).expect("held id"), "principle 4");
    // Even digit, day 23: facts at id 23 % 12 + 1 == 12.
    assert_eq!(pick_fact_or_principle(&db, 4, 23).expect("held id"), "fact 12");
    // A day before the calendar's origin finds nothing.
    assert!(matches!(pick_fact_or_principle(&db, 0, -5), Err(DataStoreError::Unknown)));
    // An id missing from the store finds nothing.
    let empty = DB { facts: Vec::new(), principles: Vec::new() };
    assert!(matches!(pick_fact_or_principle(&empty, 0, 0), Err(DataStoreError::Unknown)));
}

#[test]
fn todays_pick_comes_from_the_store() {
    let mut db = full_db();
    let title = get_todays_fact_or_principle(&mut db).expect("full store has every id");
    let known = db
        .facts
        .iter()
        .chain(db.principles.iter())
        .any(|(_, t)| *t == title);
    assert!(known);
}

#[test]
fn day_index_formula() {
    assert_eq!(index_for_day(0, 12), 1);
    assert_eq!(index_for_day(5, 14), 6);
    assert_eq!(index_for_day(738000, 12), 1);
    assert_eq!(index_for_day(738001, 12), 2);
    let today = idx_today(LEN_FACTS);
    assert!((1..=LEN_FACTS as i32).contains(&today));
    let today = idx_today(LEN_PRINCIPLES);
    assert!((1..=LEN_PRINCIPLES as i32).contains(&today));
}

#[test]
fn store_counts() {
    assert_eq!(StoreCount::Facts.count(), 12);
    assert_eq!(StoreCount::Principles.count(), 14);
}

#[test]
fn canned_captions_by_index() {
    assert_eq!(get_facts_testcase(1).expect("in range"), "fact 1:");
    assert_eq!(get_facts_testcase(12).expect("in range"), "fact 12:");
    assert_eq!(get_principles_testcases(14).expect("in range"), "principle 14:");
    assert!(matches!(get_facts_testcase(0), Err(DataStoreError::IOError(_))));
    assert!(matches!(get_facts_testcase(13), Err(DataStoreError::IOError(_))));
    match get_principles_testcases(15) {
        Err(DataStoreError::IOError(e)) => {
            assert_eq!(e.kind(), std::io::ErrorKind::NotFound);
        }
        other => panic!("expected a not-found error, got {other:?}"),
    }
}

#[test]
fn chunk_positions() {
    assert_eq!(index_from(Chunk::Tabs), 0);
    assert_eq!(index_from(Chunk::Body), 1);
    assert_eq!(index_from(Chunk::Preview), 2);
    assert_eq!(index_from(Chunk::Gauge), 3);
}

#[test]
fn decimal_rendering() {
    assert_eq!(usize_to_decimal(0), "0");
    assert_eq!(usize_to_decimal(7), "7");
    assert_eq!(usize_to_decimal(42), "42");
    assert_eq!(usize_to_decimal(907), "907");
}

#[test]
fn caption_formatting() {
    assert_eq!(split_title_prefix_id("Hello. World", 3), "03. Hello.");
    assert_eq!(split_title_prefix_id("No dot here", 12), "12. No dot here.");
    assert_eq!(split_title_prefix_id(".leading", 1), "01. .");
    assert_eq!(split_title_prefix_id("Two. dots. here", 100), "100. Two.");
}

#[test]
fn model_documents_compare_by_fields() {
    let a = Facts { id: 1, title: String::from("t") };
    assert_eq!(a, Facts { id: 1, title: String::from("t") });
    let p = Principles { id: 2, title: String::from("u") };
    assert_eq!(p.id, 2);
    assert_eq!(p.title, "u");
}

#[test]
fn listing_shapes_hold_their_items() {
    let f = DioFacts { facts: vec![String::from("a")] };
    let p = DioPrinciples { principles: vec![String::from("b"), String::from("c")] };
    assert_eq!(f.facts.len(), 1);
    assert_eq!(p.principles[1], "c");
}

#[test]
fn sums_are_exact() {
    assert_eq!(sum_list(&vec![1, 2, 3]), 6);
    assert_eq!(sum_list(&vec![-5, 2, 3]), 0);
    assert_eq!(sum_list(&Vec::new()), 0);
}
