use rand::rngs::ThreadRng;
use rand::Rng;
use vstd::prelude::*;

verus! {

/// The thread-local generator of `rand`, carried through opaquely.
#[verifier::external_type_specification]
#[verifier::external_body]
pub struct ExThreadRng(ThreadRng);

/// Relies on `rand::random`: a value drawn from the thread-local generator.
/// Nothing is known of the value.
pub assume_specification<T>[ rand::random::<T> ]() -> (r: T)
    where
        rand::distributions::Standard: rand::distributions::Distribution<T>,
;

/// Relies on `<ThreadRng as Default>::default`: a handle on the thread-local generator.
pub assume_specification[ <ThreadRng as core::default::Default>::default ]() -> (r: ThreadRng);

/// Relies on `Rng::gen_range` over the half-open range `0..n`: the result lies in it.
/// The call panics on an empty range, which `requires` rules out.
#[verifier::external_body]
pub(crate) fn random_below(rng: &mut ThreadRng, n: usize) -> (r: usize)
    requires
        0 < n,
    ensures
        r < n,
{
    rng.gen_range(0..n)
}

} // verus!
