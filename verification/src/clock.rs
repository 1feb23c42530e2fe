//! Saturating clock arithmetic. Deadlines and delays saturate at the
//! machine's limit instead of wrapping, so a deadline near the top of the
//! range simply sits in the unreachable future.

use vstd::prelude::*;

verus! {

/// `a + b`, saturated.
pub open spec fn sat_add_spec(a: u64, b: u64) -> u64 {
    if a + b <= u64::MAX {
        (a + b) as u64
    } else {
        u64::MAX
    }
}

/// `a * b`, saturated.
pub open spec fn sat_mul_spec(a: u64, b: u64) -> u64 {
    if a * b <= u64::MAX {
        (a * b) as u64
    } else {
        u64::MAX
    }
}

/// The smaller of two instants or delays.
pub open spec fn min64(a: u64, b: u64) -> u64 {
    if a <= b {
        a
    } else {
        b
    }
}

pub fn sat_add(a: u64, b: u64) -> (r: u64)
    ensures
        r == sat_add_spec(a, b),
{
    if a <= u64::MAX - b {
        a + b
    } else {
        u64::MAX
    }
}

pub fn sat_mul(a: u64, b: u64) -> (r: u64)
    ensures
        r == sat_mul_spec(a, b),
{
    match a.checked_mul(b) {
        Option::Some(p) => p,
        Option::None => u64::MAX,
    }
}

} // verus!
