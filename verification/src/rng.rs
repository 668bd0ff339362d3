use vstd::prelude::*;

use rand::Rng;

verus! {

/// Relies on rand's `Rng::gen_range` on a `usize` range: it returns a value
/// drawn uniformly from the half-open range `[lo, hi)` and panics only when
/// the range is empty, which the precondition rules out. Nothing is claimed
/// about which value comes back beyond its bounds: every draw is independent.
#[verifier::external_body]
pub(crate) fn random_in_range(lo: usize, hi: usize) -> (r: usize)
    requires
        lo < hi,
    ensures
        lo <= r < hi,
{
    rand::thread_rng().gen_range(lo..hi)
}

/// Relies on rand's `Rng::fill` on a byte slice: it overwrites exactly the
/// bytes of the slice handed to it with random data, so the buffer keeps its
/// length and every byte outside `[pos, pos + length)` keeps its value.
/// Nothing is claimed about the bytes inside the range.
#[verifier::external_body]
pub(crate) fn fill_random(data: &mut Vec<u8>, pos: usize, length: usize)
    requires
        pos + length <= old(data)@.len(),
    ensures
        final(data)@.len() == old(data)@.len(),
        forall|i: int|
            0 <= i < final(data)@.len() && !(pos <= i < pos + length) ==> final(data)@[i] == old(
                data,
            )@[i],
{
    rand::thread_rng().fill(&mut data[pos..pos + length]);
}

} // verus!
