//! The random source of the scramble generator: `rand`'s thread-local
//! generator, behind two trusted items.
use vstd::prelude::*;

use rand::rngs::ThreadRng;
use rand::Rng;

verus! {

/// The thread-local random number generator of `rand`.
#[verifier::external_type_specification]
#[verifier::external_body]
pub struct ExThreadRng(ThreadRng);

/// `rand::thread_rng`: a handle to the generator of the current thread.
/// Nothing is stated of it; it is only handed to `gen_index`.
#[verifier::external_body]
pub(crate) fn thread_rng() -> ThreadRng {
    rand::thread_rng()
}

/// `Rng::gen_range` on the range `0..n`: a value in `0..n`, drawn uniformly
/// by `rand`.  The source panics on an empty range, which `requires` rules
/// out.  Which value comes is chance: only the bound is stated.
#[verifier::external_body]
pub(crate) fn gen_index(rng: &mut ThreadRng, n: usize) -> (r: usize)
    requires
        n > 0,
    ensures
        r < n,
{
    rng.gen_range(0..n)
}

} // verus!
