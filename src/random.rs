//! The game's one source of chance.
use vstd::prelude::*;

verus! {

/// Relies on `rand::Rng::gen_ratio(1, 2)` on `rand::thread_rng()`: a fair coin.
/// Nothing is promised of the outcome.
#[verifier::external_body]
pub(crate) fn coin_flip() -> (r: bool) {
    rand::Rng::gen_ratio(&mut rand::thread_rng(), 1, 2)
}

} // verus!
