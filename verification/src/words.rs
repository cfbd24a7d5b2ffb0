//! Counting words in text, and the record type of the JSON data file.

use vstd::prelude::*;
use vstd::string::StrSliceExecFns;
use crate::errors::DataStoreError;

verus! {

/// One record of the JSON data file.
#[derive(Clone, Debug, Eq, PartialEq)]
pub struct Data {
    /// `id` of the record.
    pub id: u32,
    /// `title` or content of the record.
    pub title: String,
}

/// A whitespace character, as the word counter splits on.
pub open spec fn is_space_char(c: char) -> bool {
    c == ' ' || c == '\t' || c == '\n' || c == '\r' || c == '\u{b}' || c == '\u{c}'
}

/// Whether this character separates words.
pub fn is_space(c: char) -> (r: bool)
    ensures
        r == is_space_char(c),
{
    c == ' ' || c == '\t' || c == '\n' || c == '\r' || c == '\u{b}' || c == '\u{c}'
}

/// Number of words in `s`: maximal runs of non-whitespace characters,
/// counted by their first character.
pub open spec fn word_count(s: Seq<char>) -> nat
    decreases s.len(),
{
    if s.len() == 0 {
        0
    } else {
        word_count(s.drop_last()) + (if !is_space_char(s.last()) && (s.len() == 1 || is_space_char(
            s[s.len() - 2],
        )) {
            1nat
        } else {
            0nat
        })
    }
}

/// There are never more words than characters.
pub proof fn lemma_word_count_le_len(s: Seq<char>)
    ensures
        word_count(s) <= s.len(),
    decreases s.len(),
{
    if s.len() > 0 {
        lemma_word_count_le_len(s.drop_last());
    }
}

/// Count the words of the text: maximal runs of non-whitespace characters.
/// A text without any word is rejected as an empty source.
pub fn count_words_text(input: &str) -> (r: Result<u32, DataStoreError>)
    requires
        input@.len() <= u32::MAX,
    ensures
        word_count(input@) > 0 ==> (r matches Ok(c) && c == word_count(input@)),
        word_count(input@) == 0 ==> (r matches Err(DataStoreError::EmptySource)),
{
    let n: usize = input.unicode_len();
    let mut count: u32 = 0;
    let mut prev_space: bool = true;
    let mut i: usize = 0;
    while i < n
        invariant
            n == input@.len(),
            n <= u32::MAX,
            i <= n,
            count == word_count(input@.take(i as int)),
            count <= i,
            prev_space == (i == 0 || is_space_char(input@[i as int - 1])),
        decreases n - i,
    {
        let c: char = input.get_char(i);
        let space: bool = is_space(c);
        proof {
            assert(input@.take(i + 1).drop_last() =~= input@.take(i as int));
            assert(input@.take(i + 1).last() == input@[i as int]);
            lemma_word_count_le_len(input@.take(i + 1));
        }
        if !space && prev_space {
            count += 1;
        }
        prev_space = space;
        i += 1;
    }
    proof {
        assert(input@.take(n as int) =~= input@);
    }
    if count == 0 {
        return Err(DataStoreError::EmptySource);
    }
    Ok(count)
}

} // verus!
