//! Random draws, made with `rand`'s thread-local generator.
use vstd::prelude::*;

verus! {

/// Sum of a sequence of weights.
pub open spec fn total_weight(w: Seq<u64>) -> int
    decreases w.len(),
{
    if w.len() == 0 {
        0
    } else {
        total_weight(w.drop_last()) + w.last()
    }
}

/// Relies on `rand::distributions::WeightedIndex` (`new`, then `sample` with `thread_rng`):
/// it returns an index into the weights, picked with chance proportional to its weight, so
/// never one whose weight is zero. `new` fails when every weight is zero and adds the weights
/// in `u64`, hence the two requirements.
#[verifier::external_body]
pub(crate) fn draw_weighted_index(weights: &Vec<u64>) -> (r: usize)
    requires
        exists|i: int| 0 <= i < weights@.len() && weights@[i] > 0,
        total_weight(weights@) <= u64::MAX,
    ensures
        r < weights@.len(),
        weights@[r as int] > 0,
{
    let dist = rand::distributions::WeightedIndex::new(weights.iter().copied()).unwrap();
    rand::Rng::sample(&mut rand::thread_rng(), dist)
}

/// Relies on `rand::Rng::gen_range` over an inclusive range with `thread_rng`: the value
/// lies in the range, which must not be empty.
#[verifier::external_body]
pub(crate) fn draw_in_range(lo: i32, hi: i32) -> (r: i32)
    requires
        lo <= hi,
    ensures
        lo <= r <= hi,
{
    rand::Rng::gen_range(&mut rand::thread_rng(), lo..=hi)
}

} // verus!
