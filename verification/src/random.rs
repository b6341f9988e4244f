//! The one source of chance in the game.
use rand::Rng;
use vstd::prelude::*;

verus! {

/// Draws an integer with `rand::Rng::gen_range` from the generator that
/// `rand::thread_rng` hands out.
///
/// Trusted, not proved: for a half-open range `low..high` that is not
/// empty, `gen_range` returns a value `r` with `low <= r < high`. It is
/// only asked with such ranges, since it panics on an empty one. Nothing
/// is claimed about which value comes back.
#[verifier::external_body]
pub(crate) fn uniform_between(low: i32, high: i32) -> (r: i32)
    requires
        low < high,
    ensures
        low <= r < high,
{
    rand::thread_rng().gen_range(low..high)
}

} // verus!
