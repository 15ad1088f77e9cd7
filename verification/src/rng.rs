//! Trusted access to the rand crate's thread-local generator, used when
//! infinite mode places obstacles at random angles.

use vstd::prelude::*;
use rand::Rng;

verus! {

#[verifier::external_type_specification]
#[verifier::external_body]
pub struct ExThreadRng(rand::rngs::ThreadRng);

/// Relies on rand's thread_rng: a handle to the thread-local generator.
#[verifier::external_body]
pub(crate) fn fresh_rng() -> rand::rngs::ThreadRng {
    rand::thread_rng()
}

/// Relies on rand's Rng::gen_range on an inclusive integer range: it panics
/// only on an empty range and returns a value inside the range. Nothing more
/// is assumed of the draw.
#[verifier::external_body]
pub(crate) fn draw_in_range(rng: &mut rand::rngs::ThreadRng, lo: i64, hi: i64) -> (r: i64)
    requires
        lo <= hi,
    ensures
        lo <= r <= hi,
{
    rng.gen_range(lo..=hi)
}

/// Relies on rand's Rng::gen at type bool: a coin flip, of which nothing is
/// assumed.
#[verifier::external_body]
pub(crate) fn draw_bool(rng: &mut rand::rngs::ThreadRng) -> bool {
    rng.gen::<bool>()
}

} // verus!
