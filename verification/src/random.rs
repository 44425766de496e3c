use vstd::prelude::*;
use rand::{Rng, RngCore};

verus! {

/// One draw of `rand::thread_rng().gen::<i32>()`: a value taken from the
/// thread's random generator, uniform over all of `i32`. Nothing is stated
/// of the value, since it depends on the generator's state.
#[verifier::external_body]
pub(crate) fn random_i32() -> (r: i32) {
    rand::thread_rng().gen::<i32>()
}

/// One draw of `rand::thread_rng().next_u32()`, uniform over all of `u32`;
/// nothing is stated of the value, which depends on the generator's state.
#[verifier::external_body]
pub(crate) fn random_u32() -> (r: u32) {
    rand::thread_rng().next_u32()
}

/// A draw of `rand::thread_rng().gen_range(0, high)`: uniform over
/// `0..high`, as the crate documents; `gen_range` panics when the range is
/// empty, so `high` is positive. Which value of the range comes is left
/// open.
#[verifier::external_body]
pub(crate) fn random_below(high: u32) -> (r: u32)
    requires
        high > 0,
    ensures
        r < high,
{
    rand::thread_rng().gen_range(0u32, high)
}

} // verus!
