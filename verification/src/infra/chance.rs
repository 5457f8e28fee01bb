use vstd::prelude::*;

verus! {

/// Draws a number with `rand::Rng::gen_range` on the thread's generator.
/// Claimed of every outcome: it lies in `0..bound`. The call panics on an
/// empty range, which `requires` leaves out.
#[verifier::external_body]
pub(crate) fn random_below(bound: i64) -> (drawn: i64)
    requires
        bound > 0,
    ensures
        0 <= drawn < bound,
{
    rand::Rng::gen_range(&mut rand::thread_rng(), 0..bound)
}

/// Draws an English word with `random_word::gen`. Nothing is claimed of it.
#[verifier::external_body]
pub(crate) fn random_english_word() -> (word: String) {
    random_word::gen(random_word::Lang::En).to_string()
}

} // verus!
