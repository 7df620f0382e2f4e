//! The random number source of the simulation: macroquad's global
//! pseudo-random generator.

use vstd::prelude::*;

verus! {

/// Calls `macroquad::rand::rand`, the next output of quad-rand's global PCG
/// generator. Any `u32` may come back; nothing is claimed of it.
#[verifier::external_body]
pub(crate) fn rand_u32() -> (r: u32) {
    macroquad::rand::rand()
}

/// Calls `macroquad::rand::gen_range::<u32>(low, high)`. The source computes
/// `low + (high - low) * x` in `f64` for an `x` in `[0, 1)` made from one
/// `rand()` output, and truncates it. For `low < high <= 65536` that value is
/// exact enough to stay below `high`, so the result lies in `[low, high)`.
/// Which value in that range comes back is not stated: it depends on the
/// generator's state.
#[verifier::external_body]
pub(crate) fn gen_range_u32(low: u32, high: u32) -> (r: u32)
    requires
        low < high,
        high <= 65536,
    ensures
        low <= r < high,
{
    macroquad::rand::gen_range(low, high)
}

} // verus!
