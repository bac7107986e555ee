//! Counters that stop at their largest value, and shares in whole percent.

use vstd::prelude::*;

verus! {

/// A counter after one more event: it stops at the largest `u32`.
pub open spec fn bumped(count: u32) -> u32 {
    if count < u32::MAX {
        (count + 1) as u32
    } else {
        count
    }
}

/// A `u64` counter after one more event: it stops at the largest value.
pub open spec fn bumped_u64(count: u64) -> u64 {
    if count < u64::MAX {
        (count + 1) as u64
    } else {
        count
    }
}

/// `part / whole` in whole percent, rounded down; zero where `whole` is zero.
pub open spec fn percent_of(part: int, whole: int) -> int {
    if whole == 0 {
        0
    } else {
        part * 100 / whole
    }
}

/// A `usize` counter after one more event: it stops at the largest value.
pub open spec fn bumped_usize(count: usize) -> usize {
    if count < usize::MAX {
        (count + 1) as usize
    } else {
        count
    }
}

/// The sum of two `u32` counts, not above the largest `u32`.
pub open spec fn capped_sum(a: u32, b: u32) -> u32 {
    if a + b > u32::MAX {
        u32::MAX
    } else {
        (a + b) as u32
    }
}

/// `part / whole` in whole percent, rounded down; zero where `whole` is zero.
pub fn percent(part: u64, whole: u128) -> (r: u64)
    requires
        part <= whole,
    ensures
        r == percent_of(part as int, whole as int),
        r <= 100,
{
    if whole == 0 {
        0
    } else {
        let share: u128 = (part as u128) * 100 / whole;
        assert(share <= 100) by (nonlinear_arith)
            requires
                share == (part * 100) / (whole as int),
                0 <= part <= whole,
                whole > 0,
        ;
        share as u64
    }
}

} // verus!
