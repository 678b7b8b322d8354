//! The random draws that the generators make.
//!
//! Every draw comes from a generator that the caller hands in, so a seeded
//! generator replays the same draws. The functions here state only what
//! holds of every outcome of a draw.

use rand::rngs::StdRng;
use vstd::prelude::*;

verus! {

/// `rand::rngs::StdRng`: a seedable generator whose state stays hidden.
#[verifier::external_type_specification]
#[verifier::external_body]
pub struct ExStdRng(rand::rngs::StdRng);

/// `rand::Rng::gen_range` on a half-open range of `u64`: the value drawn
/// lies in the range. An empty range makes `gen_range` panic, so it is not
/// admitted.
#[verifier::external_body]
pub(crate) fn uniform_below(rng: &mut StdRng, low: u64, high: u64) -> (r: u64)
    requires
        low < high,
    ensures
        low <= r < high,
{
    rand::Rng::gen_range(rng, low..high)
}

/// `rand::Rng::gen_ratio`: a Bernoulli draw that is true with probability
/// `numerator / denominator`. Of the outcome only the two certain cases are
/// known. A zero denominator or a numerator above the denominator makes
/// `gen_ratio` panic, so they are not admitted.
#[verifier::external_body]
pub(crate) fn chance(rng: &mut StdRng, numerator: u32, denominator: u32) -> (r: bool)
    requires
        0 < denominator,
        numerator <= denominator,
    ensures
        numerator == denominator ==> r,
        numerator == 0 ==> !r,
{
    rand::Rng::gen_ratio(rng, numerator, denominator)
}

/// `rand::seq::SliceRandom::shuffle`: reorders the items in place by swaps,
/// so the items after the call are the items before it, each as often.
#[verifier::external_body]
pub(crate) fn shuffle(rng: &mut StdRng, items: &mut Vec<usize>)
    ensures
        final(items)@.to_multiset() == old(items)@.to_multiset(),
{
    rand::seq::SliceRandom::shuffle(items.as_mut_slice(), rng)
}

/// A uniform draw from `low..high` as a `usize`.
pub fn draw_index(rng: &mut StdRng, low: usize, high: usize) -> (r: usize)
    requires
        low < high,
    ensures
        low <= r < high,
{
    uniform_below(rng, low as u64, high as u64) as usize
}

} // verus!
