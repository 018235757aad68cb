//! The process-wide random source behind `Universe::fill_random`.

use vstd::prelude::*;

verus! {

/// Relies on macroquad::rand::rand (quad_rand): draws the next value of a
/// process-wide pseudo-random generator. Any u32 may come back, so nothing is
/// promised of the result.
#[verifier::external_body]
pub(crate) fn random_u32() -> u32 {
    macroquad::rand::rand()
}

} // verus!
