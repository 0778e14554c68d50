use vstd::prelude::*;

verus! {

/// Relies on `rand::Rng::gen_range` over the range `0..bound`: returns a
/// uniformly drawn value below `bound`; panics only on an empty range, which
/// the precondition rules out.
#[verifier::external_body]
pub(crate) fn random_below(bound: u32) -> (r: u32)
    requires
        bound > 0,
    ensures
        r < bound,
{
    rand::Rng::gen_range(&mut rand::thread_rng(), 0..bound)
}

} // verus!
