//! Pure helpers behind the interface drawing: widget positions in the root
//! layout, and list-item caption formatting.

use vstd::prelude::*;
use vstd::string::StrSliceExecFns;

verus! {

/// Position of a widget in the root layout.
///
/// A chunk is one of the rectangles the root area is split into.
#[derive(Debug, Clone, Copy, PartialEq, Eq, Structural)]
pub enum Chunk {
    /// The navigation tabs bar.
    Tabs,
    /// The main body.
    Body,
    /// The preview of the selected item.
    Preview,
    /// The tick-rate progress gauge.
    Gauge,
}

/// Returns the index of the given chunk in the root layout.
pub fn index_from(chunk: Chunk) -> (r: usize)
    ensures
        chunk == Chunk::Tabs ==> r == 0,
        chunk == Chunk::Body ==> r == 1,
        chunk == Chunk::Preview ==> r == 2,
        chunk == Chunk::Gauge ==> r == 3,
{
    match chunk {
        Chunk::Tabs => 0,
        Chunk::Body => 1,
        Chunk::Preview => 2,
        Chunk::Gauge => 3,
    }
}

/// The decimal digit character for a value below ten.
pub open spec fn digit_char(d: int) -> char {
    if d == 0 {
        '0'
    } else if d == 1 {
        '1'
    } else if d == 2 {
        '2'
    } else if d == 3 {
        '3'
    } else if d == 4 {
        '4'
    } else if d == 5 {
        '5'
    } else if d == 6 {
        '6'
    } else if d == 7 {
        '7'
    } else if d == 8 {
        '8'
    } else {
        '9'
    }
}

/// The decimal representation of `n`, most significant digit first.
pub open spec fn dec_rep(n: int) -> Seq<char>
    recommends
        n >= 0,
    decreases n,
{
    if n < 10 {
        seq![digit_char(n)]
    } else {
        dec_rep(n / 10).push(digit_char(n % 10))
    }
}

/// The decimal digit character for a value below ten.
fn digit_char_exec(d: usize) -> (r: char)
    requires
        d < 10,
    ensures
        r == digit_char(d as int),
{
    match d {
        0 => '0',
        1 => '1',
        2 => '2',
        3 => '3',
        4 => '4',
        5 => '5',
        6 => '6',
        7 => '7',
        8 => '8',
        _ => '9',
    }
}

/// Render `n` in decimal.
pub fn usize_to_decimal(n: usize) -> (r: String)
    ensures
        r@ == dec_rep(n as int),
    decreases n,
{
    if n < 10 {
        let mut s: String = String::new();
        s.push(digit_char_exec(n));
        proof {
            assert(s@ =~= seq![digit_char(n as int)]);
        }
        s
    } else {
        let mut s: String = usize_to_decimal(n / 10);
        s.push(digit_char_exec(n % 10));
        s
    }
}

/// The decimal representation of `n`, left-padded with a zero to at least
/// two characters.
pub open spec fn pad2(n: int) -> Seq<char> {
    if n < 10 {
        "0"@ + dec_rep(n)
    } else {
        dec_rep(n)
    }
}

/// Index of the first '.' in `s`, or its length when none occurs.
pub open spec fn first_dot(s: Seq<char>) -> int {
    if exists|d: int|
        0 <= d < s.len() && s[d] == '.' && (forall|k: int| 0 <= k < d ==> s[k] != '.') {
        choose|d: int|
            0 <= d < s.len() && s[d] == '.' && (forall|k: int| 0 <= k < d ==> s[k] != '.')
    } else {
        s.len() as int
    }
}

/// The caption of a list item: the id left-padded with a zero to two
/// digits, then the part of the title before its first period, closed by a
/// period.
pub open spec fn formatted_title(id: int, s: Seq<char>) -> Seq<char> {
    pad2(id) + ". "@ + s.subrange(0, first_dot(s)) + "."@
}

/// Render a list item caption: the id zero-padded to at least two digits,
/// then the part of the title before its first period, closed by a period.
pub fn split_title_prefix_id(string: &str, id: usize) -> (r: String)
    requires
        string@.len() >= 1,
    ensures
        r@ == formatted_title(id as int, string@),
{
    let n: usize = string.unicode_len();
    let mut d: usize = 0;
    let mut found: bool = false;
    while !found && d < n
        invariant
            n == string@.len(),
            d <= n,
            forall|k: int| 0 <= k < d ==> string@[k] != '.',
            found ==> d < n && string@[d as int] == '.',
        decreases n - d, (if found { 0int } else { 1int }),
    {
        if string.get_char(d) == '.' {
            found = true;
        } else {
            d += 1;
        }
    }
    proof {
        if found {
            assert(first_dot(string@) == d as int) by {
                let w = choose|w: int|
                    0 <= w < string@.len() && string@[w] == '.' && (forall|k: int|
                        0 <= k < w ==> string@[k] != '.');
                if w < d {
                    assert(string@[w] != '.');
                }
                if d < w {
                    assert(string@[d as int] != '.');
                }
            }
        } else {
            assert(!exists|w: int|
                0 <= w < string@.len() && string@[w] == '.' && (forall|k: int|
                    0 <= k < w ==> string@[k] != '.'));
            assert(first_dot(string@) == n as int);
        }
    }
    let digits: String = usize_to_decimal(id);
    let mut out: String = if id < 10 {
        "0".to_owned()
    } else {
        String::new()
    };
    out.append(digits.as_str());
    proof {
        if id >= 10 {
            assert(Seq::<char>::empty() + dec_rep(id as int) =~= dec_rep(id as int));
        }
        assert(out@ == pad2(id as int));
    }
    out.append(". ");
    let prefix: &str = string.substring_char(0, d);
    out.append(prefix);
    out.append(".");
    out
}

} // verus!
