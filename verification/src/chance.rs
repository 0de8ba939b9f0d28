//! The library's only source of randomness: thin wrappers over the `rand`
//! crate's thread-local generator. Each states what holds of every outcome.

use vstd::prelude::*;
use rand::seq::IndexedRandom;

verus! {

/// Calls `rand::random_range(lo..hi)` on `i64`. The crate documents a value
/// drawn uniformly from the half-open range, and a panic on an empty range,
/// which `requires` rules out. Which value comes out is left unsaid: it is chance.
#[verifier::external_body]
pub(crate) fn random_range(lo: i64, hi: i64) -> (r: i64)
    requires
        lo < hi,
    ensures
        lo <= r < hi,
{
    rand::random_range(lo..hi)
}

/// Calls `IndexedRandom::choose` on a slice with the thread-local generator.
/// Its source returns `None` exactly for an empty slice and otherwise a
/// reference to the element at a random index; which element is chance.
#[verifier::external_body]
pub(crate) fn choose_one<T>(items: &[T]) -> (r: Option<&T>)
    ensures
        r is None <==> items@.len() == 0,
        r matches Some(x) ==> items@.contains(*x),
{
    items.choose(&mut rand::rng())
}

/// One draw, uniform over `0..1000`, that the rolls judge their chances in
/// thousandths against.
pub fn draw_permille() -> (d: u32)
    ensures
        d < 1000,
{
    random_range(0, 1000) as u32
}

} // verus!
