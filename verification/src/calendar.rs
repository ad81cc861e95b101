//! The calendar codec: month lengths and the bitmask of the days of a month.

use vstd::prelude::*;

verus! {

/// Number of days of the month with the given number (1 is January).
/// February always has 28 days: the calendar knows no leap years.
pub open spec fn month_length(month: int) -> int {
    if month == 2 {
        28
    } else if month == 4 || month == 6 || month == 9 || month == 11 {
        30
    } else {
        31
    }
}

/// Whether bit `i` of `mask` is set, that is whether day `i + 1` is marked.
pub open spec fn day_marked(mask: i32, i: int) -> bool {
    (mask >> (i as u32)) & 1i32 == 1i32
}

/// The days of a month as booleans: entry `i` is bit `i` of `mask`.
pub open spec fn decode(mask: i32, day_count: int) -> Seq<bool> {
    Seq::new(if day_count < 0 { 0nat } else { day_count as nat }, |i: int| day_marked(mask, i))
}

proof fn lemma_bit_test(num: i32, i: u32)
    by (bit_vector)
    requires
        i < 32,
    ensures
        (num & (1i32 << i) != 0i32) == ((num >> i) & 1i32 == 1i32),
{
}

/// Expands a month bitmask into `limit` booleans, lowest bit first. Bits at
/// and above `limit` are ignored; a `limit` below one gives no entries.
pub fn int_to_bool_array(num: i32, limit: i8) -> (days: Vec<bool>)
    requires
        limit <= 32,
    ensures
        days@ == decode(num, limit as int),
{
    let mut bool_array: Vec<bool> = Vec::new();
    let mut i: i8 = 0;
    while i < limit
        invariant
            0 <= i,
            i <= limit || i == 0,
            limit <= 32,
            bool_array@.len() == i,
            forall|k: int| 0 <= k < i ==> bool_array@[k] == day_marked(num, k),
        decreases limit - i,
    {
        let shift: u32 = i as u32;
        proof {
            lemma_bit_test(num, shift);
        }
        bool_array.push(num & (1i32 << shift) != 0);
        i = i + 1;
    }
    bool_array
}

/// Whether `day` is a day of `month`, both counted from 1.
pub open spec fn valid_day(month: int, day: int) -> bool {
    1 <= month <= 12 && 1 <= day <= month_length(month)
}

/// `mask` with the bit of `day` (counted from 1) set.
pub open spec fn with_day(mask: i32, day: int) -> i32 {
    mask | (1i32 << ((day - 1) as u32))
}

/// Whether every set bit of `mask` lies below `day_count`.
pub open spec fn confined(mask: i32, day_count: int) -> bool {
    forall|i: int| day_count <= i < 32 ==> !day_marked(mask, i)
}

/// Number of days of `month` (1 is January), or `None` outside 1 to 12.
pub fn days_in_month(month: u32) -> (days: Option<u32>)
    ensures
        days == if 1 <= month <= 12 {
            Some(month_length(month as int) as u32)
        } else {
            None
        },
{
    match month {
        2 => Some(28),
        4 | 6 | 9 | 11 => Some(30),
        1 | 3 | 5 | 7 | 8 | 10 | 12 => Some(31),
        _ => None,
    }
}

proof fn lemma_set_bit(mask: i32, d: u32, i: u32)
    by (bit_vector)
    requires
        d < 32,
        i < 32,
    ensures
        (((mask | (1i32 << d)) >> i) & 1i32 == 1i32) == (((mask >> i) & 1i32 == 1i32) || i == d),
{
}

proof fn lemma_set_bit_twice(mask: i32, d: u32)
    by (bit_vector)
    requires
        d < 32,
    ensures
        (mask | (1i32 << d)) | (1i32 << d) == mask | (1i32 << d),
{
}

proof fn lemma_zero_bit(i: u32)
    by (bit_vector)
    ensures
        (0i32 >> i) & 1i32 == 0i32,
{
}

/// The empty mask has no bit set, so it fits every month.
pub proof fn lemma_zero_confined(day_count: int)
    ensures
        confined(0, day_count),
{
    assert forall|i: int| day_count <= i < 32 implies !day_marked(0, i) by {
        lemma_zero_bit(i as u32);
    }
}

/// Marking a day sets its bit and leaves every other day as it was.
pub proof fn lemma_with_day_marks(mask: i32, day: int, i: int)
    requires
        1 <= day <= 32,
        0 <= i < 32,
    ensures
        day_marked(with_day(mask, day), i) == (day_marked(mask, i) || i == day - 1),
{
    lemma_set_bit(mask, (day - 1) as u32, i as u32);
}

/// Marking a day that is already marked changes nothing, and marking a day
/// twice gives what marking it once gives.
pub proof fn lemma_with_day_idempotent(mask: i32, day: int)
    requires
        1 <= day <= 32,
    ensures
        with_day(with_day(mask, day), day) == with_day(mask, day),
{
    lemma_set_bit_twice(mask, (day - 1) as u32);
}

/// Marking a day of a month keeps the mask within that month's days.
pub proof fn lemma_with_day_confined(mask: i32, day: int, day_count: int)
    requires
        1 <= day <= day_count,
        day_count <= 32,
        confined(mask, day_count),
    ensures
        confined(with_day(mask, day), day_count),
{
    assert forall|i: int| day_count <= i < 32 implies !day_marked(with_day(mask, day), i) by {
        lemma_with_day_marks(mask, day, i);
    }
}

/// Sets the bit of `day` (counted from 1) in `mask`.
pub fn mark(mask: i32, day: u32) -> (marked: i32)
    requires
        1 <= day <= 32,
    ensures
        marked == with_day(mask, day as int),
{
    let shift: u32 = day - 1;
    mask | (1i32 << shift)
}

} // verus!
