//! Counters that stop at the end of their range instead of wrapping.

use vstd::prelude::*;

verus! {

/// One more, held at the largest count 64 bits can express.
pub open spec fn one_more(n: u64) -> u64 {
    if n < u64::MAX {
        (n + 1) as u64
    } else {
        n
    }
}

/// One fewer, never below zero.
pub open spec fn one_fewer(n: u64) -> u64 {
    if n > 0 {
        (n - 1) as u64
    } else {
        n
    }
}

/// One more, held at the largest count 32 bits can express.
pub open spec fn one_more_u32(n: u32) -> u32 {
    if n < u32::MAX {
        (n + 1) as u32
    } else {
        n
    }
}

/// The sum of two counts, held at the largest count 64 bits can express.
pub open spec fn sum_of(a: u64, b: u64) -> u64 {
    if a + b <= u64::MAX {
        (a + b) as u64
    } else {
        u64::MAX
    }
}

/// The seconds from `from` to `to`; none if the clock went backwards.
pub open spec fn elapsed_secs(from: u64, to: u64) -> u64 {
    if to >= from {
        (to - from) as u64
    } else {
        0
    }
}

/// Adds one to a 64-bit count that stops at its largest value.
pub fn count_up(n: u64) -> (m: u64)
    ensures
        m == one_more(n),
{
    if n < u64::MAX {
        n + 1
    } else {
        n
    }
}

/// Takes one off a 64-bit count that stops at zero.
pub fn count_down(n: u64) -> (m: u64)
    ensures
        m == one_fewer(n),
{
    if n > 0 {
        n - 1
    } else {
        n
    }
}

/// Adds one to a 32-bit count that stops at its largest value.
pub fn count_up_u32(n: u32) -> (m: u32)
    ensures
        m == one_more_u32(n),
{
    if n < u32::MAX {
        n + 1
    } else {
        n
    }
}

/// Adds two 64-bit counts, stopping at the largest value.
pub fn add_up(a: u64, b: u64) -> (sum: u64)
    ensures
        sum == sum_of(a, b),
{
    if a <= u64::MAX - b {
        a + b
    } else {
        u64::MAX
    }
}

/// The seconds from `from` to `to`; none if the clock went backwards.
pub fn elapsed(from: u64, to: u64) -> (secs: u64)
    ensures
        secs == elapsed_secs(from, to),
{
    if to >= from {
        to - from
    } else {
        0
    }
}

} // verus!
