use vstd::prelude::*;

verus! {

/// The rand crate's standard generator, declared so that verified code can
/// hold one and thread it through a crossover call. Verified code sees
/// nothing of its state, and nothing is assumed about which values it
/// produces beyond the bounds the wrappers below state.
#[verifier::external_type_specification]
#[verifier::external_body]
pub struct ExStdRng(rand::rngs::StdRng);

/// Relies on rand's Rng::gen_range over `lo..hi`: it panics only on an empty
/// range and otherwise returns a value drawn from the range.
#[verifier::external_body]
pub(crate) fn rand_range(rng: &mut rand::rngs::StdRng, lo: usize, hi: usize) -> (r: usize)
    requires
        lo < hi,
    ensures
        lo <= r < hi,
{
    rand::Rng::gen_range(rng, lo..hi)
}

/// Relies on rand's Rng::gen_ratio: it panics only when the denominator is
/// zero or exceeded by the numerator. Which way the draw falls is not
/// specified.
#[verifier::external_body]
pub(crate) fn coin(rng: &mut rand::rngs::StdRng, numerator: u32, denominator: u32) -> bool
    requires
        0 < denominator,
        numerator <= denominator,
{
    rand::Rng::gen_ratio(rng, numerator, denominator)
}

} // verus!
