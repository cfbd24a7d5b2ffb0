use dio::errors::DataStoreError;
use dio::words::{count_words_text, Data};

#[test]
fn count_single_word() {
    let word_count = count_words_text("foobar").expect("should count words from File or Cursor");
    assert_eq!(word_count, 1u32);
}

#[test]
fn count_multiple_words() {
    let word_count =
        count_words_text("foobar \nbaz").expect("should count words from File or Cursor");
    assert_eq!(word_count, 2u32);
}

#[test]
#[should_panic]
fn empty_input() {
    let word_count =
        count_words_text("").expect("should count words from File or Cursor if any");
    assert_eq!(word_count, 0u32);
}

#[test]
fn blank_input_is_empty_source() {
    let result = count_words_text(" \t\r\n ");
    assert!(matches!(result, Err(DataStoreError::EmptySource)));
}

#[test]
fn counts_runs_between_mixed_whitespace() {
    assert_eq!(count_words_text("a b\tc\nd").expect("should count"), 4u32);
    assert_eq!(count_words_text("  spaced   out  ").expect("should count"), 2u32);
}

#[test]
fn data_records_compare_by_fields() {
    let a = Data { id: 0, title: String::from("Hello") };
    let b = Data { id: 0, title: String::from("Hello") };
    let c = Data { id: 1, title: String::from("World") };
    assert_eq!(a, b);
    assert_ne!(a, c);
}
