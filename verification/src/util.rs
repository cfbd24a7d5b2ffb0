//! Calendar and clock access, and the day-to-index rule built on it.

use vstd::prelude::*;

verus! {

/// Relies on `String::push` (std): appends the given character to the end of
/// the string.
pub assume_specification[ String::push ](s: &mut String, ch: char)
    ensures
        final(s)@ == old(s)@.push(ch),
;

/// Relies on `String::pop` (std): removes and returns the last character, or
/// returns `None` when the string is empty.
pub assume_specification[ String::pop ](s: &mut String) -> (r: Option<char>)
    ensures
        old(s)@.len() == 0 ==> r is None && final(s)@ == old(s)@,
        old(s)@.len() > 0 ==> r == Some(old(s)@.last()) && final(s)@ == old(s)@.drop_last(),
;

/// Day numbers for today, in the proleptic Gregorian calendar with
/// January 1 of year 1 CE as day 1.
#[derive(Debug)]
pub struct Date {
    /// Today's day number in UTC.
    pub weekday_utc: i32,
    /// Today's day number in local time.
    pub weekday_local: i32,
}

/// Relies on chrono: `Local::now()` read from the clock, and
/// `Datelike::num_days_from_ce` counting its days in the proleptic Gregorian
/// calendar. The clock can say anything, so nothing is promised.
#[verifier::external_body]
fn current_days_local() -> i32 {
    chrono::Datelike::num_days_from_ce(&chrono::offset::Local::now())
}

/// Relies on chrono: `Utc::now()` read from the clock, and
/// `Datelike::num_days_from_ce` counting its days in the proleptic Gregorian
/// calendar. The clock can say anything, so nothing is promised.
#[verifier::external_body]
fn current_days_utc() -> i32 {
    chrono::Datelike::num_days_from_ce(&chrono::offset::Utc::now())
}

/// Relies on chrono: `Local::now()` read from the clock, its
/// `format("%Y-%m-%d %H:%M:%S")` rendered via `to_string`. The clock can say
/// anything, so nothing is promised.
#[verifier::external_body]
pub(crate) fn local_time_string() -> String {
    chrono::offset::Local::now().format("%Y-%m-%d %H:%M:%S").to_string()
}

impl Date {
    /// Today's day numbers, read from the clock.
    pub fn new() -> Self {
        Self { weekday_utc: current_days_utc(), weekday_local: current_days_local() }
    }
}

/// The list index a day number denotes, among `len` items: the day wrapped
/// by the item count, shifted by one to avoid index 0.
pub fn index_for_day(day: i32, len: usize) -> (r: i32)
    requires
        1 <= len <= i32::MAX,
    ensures
        day >= 0 ==> r == day as int % (len as int) + 1,
        -(len as int) + 2 <= r <= len as int,
{
    day % (len as i32) + 1
}

/// Return today's index for a list item among `len` items. Whatever day the
/// clock reports, the result stays within one item count of zero.
pub fn idx_today(len: usize) -> (r: i32)
    requires
        1 <= len <= i32::MAX,
    ensures
        -(len as int) + 2 <= r <= len as int,
{
    index_for_day(Date::new().weekday_local, len)
}

/// Sum of the first `k` numbers.
pub open spec fn seq_sum(s: Seq<i32>, k: int) -> int
    recommends
        0 <= k <= s.len(),
    decreases k,
{
    if k <= 0 {
        0
    } else {
        seq_sum(s, k - 1) + s[k - 1]
    }
}

/// Every prefix sum stays within the machine range, so summing cannot
/// overflow.
pub open spec fn prefix_sums_in_range(s: Seq<i32>) -> bool {
    forall|k: int| 0 <= k <= s.len() ==> i32::MIN <= #[trigger] seq_sum(s, k) <= i32::MAX
}

/// The sum of the numbers.
pub fn sum_list(nums: &Vec<i32>) -> (r: i32)
    requires
        prefix_sums_in_range(nums@),
    ensures
        r == seq_sum(nums@, nums@.len() as int),
{
    let n: usize = nums.len();
    let mut sum: i32 = 0;
    let mut i: usize = 0;
    while i < n
        invariant
            n == nums@.len(),
            i <= n,
            prefix_sums_in_range(nums@),
            sum == seq_sum(nums@, i as int),
        decreases n - i,
    {
        proof {
            assert(i32::MIN <= seq_sum(nums@, i + 1) <= i32::MAX);
        }
        sum = sum + nums[i];
        i += 1;
    }
    sum
}

} // verus!
