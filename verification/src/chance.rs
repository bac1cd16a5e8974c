//! The random source. The items here say what is taken on trust from the
//! `rand` crate; Verus does not look inside them.

use rand::rngs::ThreadRng;
use rand::Rng;
use vstd::prelude::*;

verus! {

/// `rand::rngs::ThreadRng`, the generator that `rand` keeps for each thread
/// and seeds from the system. Its state is not modelled.
#[verifier::external_type_specification]
#[verifier::external_body]
pub struct ExThreadRng(rand::rngs::ThreadRng);

/// `rand::thread_rng` hands out the calling thread's generator. Nothing is
/// claimed of it. (It panics if the system cannot give it a seed.)
pub assume_specification[ rand::thread_rng ]() -> (rng: ThreadRng)
;

/// `Rng::gen_ratio` on the thread's generator: a draw that is `true` with
/// probability `numerator / denominator`. The call panics on a zero
/// denominator and on a ratio above one, so both are ruled out. Of the
/// outcome only the two certain cases are claimed, as documented: a ratio of
/// zero never gives `true`, a ratio of one always does. Two draws with the
/// same arguments may differ. (Whatever the arguments, a draw panics if the
/// generator is due for a fresh seed and the system cannot give one.)
#[verifier::external_body]
pub(crate) fn draw(rng: &mut ThreadRng, numerator: u32, denominator: u32) -> (outcome: bool)
    requires
        0 < denominator,
        numerator <= denominator,
    ensures
        numerator == 0 ==> !outcome,
        numerator == denominator ==> outcome,
{
    rng.gen_ratio(numerator, denominator)
}

} // verus!
