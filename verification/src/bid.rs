//! Derivation of the opponent's pseudo-random bid from the entropy counter.
//!
//! The counter is a public, monotonically increasing value reported by the
//! host environment; the caller reads it and passes it in. The bid is the
//! counter reduced modulo `balance + offset`, so with `offset == 1` it never
//! exceeds the opponent's remaining balance. The result is deterministic in
//! the counter by design: an observer of the counter can predict the bid.

use vstd::prelude::*;

verus! {

/// The bid derived from a counter value: the counter modulo `modulus`.
pub open spec fn bid_from_counter(counter: u64, modulus: int) -> int {
    counter as int % modulus
}

/// Reduces the entropy counter to a number in `[0, balance + offset)`.
///
/// With `offset == 1` the result is at most `balance`, so a bid produced
/// here can always be paid out of the opponent's remaining balance.
pub fn get_random_number(counter: u64, balance: usize, offset: usize) -> (r: u8)
    requires
        0 < balance + offset <= 256,
    ensures
        r as int == bid_from_counter(counter, (balance + offset) as int),
        r as int <= balance + offset - 1,
{
    let modulus: u64 = (balance + offset) as u64;
    let r: u64 = counter % modulus;
    r as u8
}

} // verus!
