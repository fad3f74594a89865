//! Ordering of measured times.
//!
//! A measured time is kept as the bit pattern of an IEEE 754 double (what
//! `f64::to_bits` gives), so that records can be compared and copied exactly.
//! This module orders two such patterns as the doubles they stand for.

use vstd::prelude::*;

verus! {

/// The bit that holds the sign of a double.
pub const SIGN_BIT: u64 = 0x8000_0000_0000_0000;

/// The magnitude of positive infinity: every larger magnitude is a NaN.
pub const INFINITY_BITS: u64 = 0x7ff0_0000_0000_0000;

/// The pattern without its sign bit.
pub open spec fn magnitude(bits: u64) -> int {
    if bits >= SIGN_BIT {
        bits - SIGN_BIT
    } else {
        bits as int
    }
}

/// Whether the pattern stands for a NaN, which is ordered with nothing.
pub open spec fn is_nan(bits: u64) -> bool {
    magnitude(bits) > INFINITY_BITS
}

/// An integer that orders the patterns of two numbers as the numbers are
/// ordered: the magnitude, negated where the sign bit is set. Both zeros get 0.
pub open spec fn order_key(bits: u64) -> int {
    if bits >= SIGN_BIT {
        -magnitude(bits)
    } else {
        magnitude(bits)
    }
}

/// How the second of two times stands to the first. Lower is better.
#[derive(Debug, Clone, Copy, PartialEq, Eq, Structural)]
pub enum Direction {
    /// The first time is greater than the second.
    Improved,
    /// The first time is less than the second.
    Regressed,
    /// The two times are equal.
    Unchanged,
    /// One of the two is a NaN, so they are not ordered.
    Unordered,
}

impl Direction {
    /// The direction seen from the other side.
    pub open spec fn reversed(self) -> Direction {
        match self {
            Direction::Improved => Direction::Regressed,
            Direction::Regressed => Direction::Improved,
            Direction::Unchanged => Direction::Unchanged,
            Direction::Unordered => Direction::Unordered,
        }
    }
}

/// The direction from a first time to a second, both as bit patterns.
pub open spec fn spec_direction(lhs: u64, rhs: u64) -> Direction {
    if is_nan(lhs) || is_nan(rhs) {
        Direction::Unordered
    } else if order_key(lhs) > order_key(rhs) {
        Direction::Improved
    } else if order_key(lhs) < order_key(rhs) {
        Direction::Regressed
    } else {
        Direction::Unchanged
    }
}

/// Splits a pattern into its sign and its magnitude.
fn sign_and_magnitude(bits: u64) -> (r: (bool, u64))
    ensures
        r.0 == (bits >= SIGN_BIT),
        r.1 == magnitude(bits),
        r.1 < SIGN_BIT,
{
    if bits >= SIGN_BIT {
        (true, bits - SIGN_BIT)
    } else {
        (false, bits)
    }
}

/// Tells whether a time went down, up or stayed, from `lhs` to `rhs`.
pub fn direction(lhs: u64, rhs: u64) -> (d: Direction)
    ensures
        d == spec_direction(lhs, rhs),
{
    let (lhs_neg, lhs_mag) = sign_and_magnitude(lhs);
    let (rhs_neg, rhs_mag) = sign_and_magnitude(rhs);
    if lhs_mag > INFINITY_BITS || rhs_mag > INFINITY_BITS {
        Direction::Unordered
    } else if lhs_neg && rhs_neg {
        // both below zero: the greater magnitude is the lesser number
        if lhs_mag < rhs_mag {
            Direction::Improved
        } else if lhs_mag > rhs_mag {
            Direction::Regressed
        } else {
            Direction::Unchanged
        }
    } else if lhs_neg {
        if lhs_mag == 0 && rhs_mag == 0 {
            Direction::Unchanged
        } else {
            Direction::Regressed
        }
    } else if rhs_neg {
        if lhs_mag == 0 && rhs_mag == 0 {
            Direction::Unchanged
        } else {
            Direction::Improved
        }
    } else if lhs_mag > rhs_mag {
        Direction::Improved
    } else if lhs_mag < rhs_mag {
        Direction::Regressed
    } else {
        Direction::Unchanged
    }
}

/// Seen from the other side, an improvement is a regression and the reverse;
/// equal and unordered times stay what they are.
pub proof fn lemma_direction_reversed(lhs: u64, rhs: u64)
    ensures
        spec_direction(rhs, lhs) == spec_direction(lhs, rhs).reversed(),
{
}

} // verus!
