//! The order in which the cards lie on the table.
//!
//! The deck is dealt in a fixed order. The table is laid by sorting the cards
//! with a comparison that answers at random, so that no two tables look
//! alike.

use core::cmp::Ordering;
use rand::Rng;
use vstd::prelude::*;

verus! {

/// Draws from the thread's random number generator with
/// `rand::Rng::gen_ratio`: `true` with a chance of `numerator` in
/// `denominator`.
///
/// Trusted, not proved. The outcome is random, so the contract says only
/// what `rand` documents of the two ends: a chance of none in any is never
/// `true`, a chance of all in all is always `true`. `gen_ratio` panics on a
/// denominator of zero and on a numerator above the denominator; both are
/// kept out. `rand::thread_rng` panics where the system cannot seed the
/// generator, which no argument decides.
#[verifier::external_body]
fn chance(numerator: u32, denominator: u32) -> (hit: bool)
    requires
        denominator > 0,
        numerator <= denominator,
    ensures
        numerator == 0 ==> !hit,
        numerator == denominator ==> hit,
{
    rand::thread_rng().gen_ratio(numerator, denominator)
}

/// How a draw orders two cards: the first before the second on a hit, after
/// it otherwise. Two cards are never told to be equal.
pub fn order_for(hit: bool) -> (order: Ordering)
    ensures
        hit ==> order == Ordering::Less,
        !hit ==> order == Ordering::Greater,
{
    if hit {
        Ordering::Less
    } else {
        Ordering::Greater
    }
}

/// Orders two cards at random: the first before the second one time in
/// three, after it otherwise.
pub fn random_order() -> (order: Ordering)
    ensures
        order == Ordering::Less || order == Ordering::Greater,
{
    order_for(chance(1, 3))
}

} // verus!
