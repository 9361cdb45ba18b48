use vstd::prelude::*;
use rand::RngExt;

verus! {

/// The thread-local random generator of `rand`; nothing inside it is read.
#[verifier::external_type_specification]
#[verifier::external_body]
pub struct ExThreadRng(rand::rngs::ThreadRng);

/// Calls `rand::rng()`, the handle to the thread's generator. Nothing is
/// claimed of the handle. (`rand` panics here only if the operating system
/// cannot seed the generator the first time, which no argument can rule out.)
#[verifier::external_body]
pub(crate) fn thread_rng() -> rand::rngs::ThreadRng {
    rand::rng()
}

/// Calls `RngExt::random_range` on the range `0..len` of `usize`. Its
/// source refuses an empty range with a panic (hence `len > 0`) and
/// otherwise samples within the range, so the result is below `len`; which
/// value comes is up to chance and is not stated. (The generator also panics
/// if the operating system fails when it reseeds, which no argument can
/// rule out.)
#[verifier::external_body]
pub(crate) fn random_index(rng: &mut rand::rngs::ThreadRng, len: usize) -> (r: usize)
    requires
        len > 0,
    ensures
        r < len,
{
    rng.random_range(0..len)
}

} // verus!
