use rand::Rng;
use vstd::prelude::*;

verus! {

/// A roll of a fair die with faces `low..high`, drawn from the thread-local
/// generator of `rand` (`rand::thread_rng` then `Rng::gen_range`).
///
/// The contract claims only that the face lies in `low..high`, which is what
/// `gen_range` documents for an exclusive range; which face comes out is
/// left unsaid, since it rests on chance. `gen_range` panics on an empty
/// range, which `requires` leaves out.
#[verifier::external_body]
pub(crate) fn roll_die(low: u32, high: u32) -> (face: u32)
    requires
        low < high,
    ensures
        low <= face < high,
{
    rand::thread_rng().gen_range(low..high)
}

} // verus!
