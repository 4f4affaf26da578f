//! Random draws. The draws come from the `rand` crate; what is decided from
//! a draw is decided here.

use vstd::prelude::*;

verus! {

/// `rand::rngs::StdRng`, the generator that takes a seed. Nothing of its
/// inside is known here.
#[verifier::external_type_specification]
#[verifier::external_body]
pub struct ExStdRng(rand::rngs::StdRng);

/// `rand::random::<bool>()`: a fair coin from the thread's generator.
/// Nothing is claimed of the outcome. The generator is seeded from the
/// system at its first use in a thread and again from time to time, and
/// panics at either where the system has no randomness to give, or where
/// it cannot register its handler for forks of the process; no argument
/// has a part in that.
#[verifier::external_body]
pub(crate) fn coin_flip() -> (r: bool) {
    rand::random::<bool>()
}

/// `Rng::gen::<u32>()` on `rand::thread_rng()`: 32 bits from the thread's
/// generator. Nothing is claimed of the outcome. It panics where
/// `coin_flip` does: where the system has no randomness for a seeding, or
/// the handler for forks cannot be registered.
#[verifier::external_body]
pub(crate) fn thread_draw() -> (r: u32) {
    rand::Rng::gen::<u32>(&mut rand::thread_rng())
}

/// Word `n` of the stream of 32-bit words that a `StdRng` gives that was
/// made from `seed` by `SeedableRng::from_seed` and is drawn from by
/// `Rng::gen::<u32>()`. The stream is that of the generator's algorithm in
/// the version of `rand` that the library is built with; it depends on the
/// seed and on nothing else.
pub uninterp spec fn seeded_word(seed: Seq<u8>, n: nat) -> u32;

/// The seed of the stream that a `StdRng` gives.
pub uninterp spec fn std_rng_seed(rng: rand::rngs::StdRng) -> Seq<u8>;

/// How many 32-bit words of its stream a `StdRng` has given so far.
pub uninterp spec fn std_rng_drawn(rng: rand::rngs::StdRng) -> nat;

/// `SeedableRng::from_seed` of `StdRng`: a generator at the start of the
/// stream of `seed`.
#[verifier::external_body]
pub(crate) fn seeded_rng(seed: [u8; 32]) -> (r: rand::rngs::StdRng)
    ensures
        std_rng_seed(r) == seed@,
        std_rng_drawn(r) == 0,
{
    rand::SeedableRng::from_seed(seed)
}

/// `Rng::gen::<u32>()` on a `StdRng`: the next word of its stream, which is
/// a function of its seed and of the number of words given before. The
/// generator goes on by one word.
#[verifier::external_body]
pub(crate) fn seeded_draw(rng: &mut rand::rngs::StdRng) -> (r: u32)
    ensures
        r == seeded_word(std_rng_seed(*old(rng)), std_rng_drawn(*old(rng))),
        std_rng_seed(*final(rng)) == std_rng_seed(*old(rng)),
        std_rng_drawn(*final(rng)) == std_rng_drawn(*old(rng)) + 1,
{
    rand::Rng::gen::<u32>(rng)
}

/// Whether a chance of `prob` tenths of a percent comes true on a draw of 32
/// random bits. The upper 24 bits of the draw, read as a fraction of `2^24`,
/// are a number from 0 up to 1; the chance comes true where a hundred times
/// that number is below the percentage.
pub open spec fn triggers_spec(draw: u32, prob: u32) -> bool {
    (draw / 256) * 1000 < prob * 16_777_216
}

pub fn triggers(draw: u32, prob: u32) -> (r: bool)
    ensures
        r == triggers_spec(draw, prob),
{
    let fraction: u64 = (draw / 256) as u64;
    fraction * 1000 < (prob as u64) * 16_777_216
}

} // verus!
