use rand::Rng;
use rand::rngs::ThreadRng;
use vstd::prelude::*;

verus! {

/// The generator that draws every random choice of the toggle and the mutator.
#[verifier::external_type_specification]
#[verifier::external_body]
pub struct ExThreadRng(ThreadRng);

/// Relies on rand::thread_rng: hands out the thread's lazily seeded generator.
#[verifier::external_body]
pub fn fresh_rng() -> (r: ThreadRng) {
    rand::thread_rng()
}

/// Relies on rand::Rng::gen_range over `0..bound`: a value drawn from the
/// half-open range, which panics only when the range is empty.
#[verifier::external_body]
pub fn draw_below(rng: &mut ThreadRng, bound: usize) -> (r: usize)
    requires
        bound > 0,
    ensures
        r < bound,
{
    rng.gen_range(0..bound)
}

} // verus!
