use vstd::prelude::*;
use rand::Rng;

verus! {

/// Relies on rand::rngs::ThreadRng: the thread-local generator, seeded by the
/// runtime's default entropy mechanism. Opaque here; values pass through it.
#[verifier::external_type_specification]
#[verifier::external_body]
pub struct ExThreadRng(rand::rngs::ThreadRng);

/// Relies on rand::thread_rng: returns a handle to the thread-local
/// generator. Nothing is promised of the handle itself.
#[verifier::external_body]
fn fresh_rng() -> rand::rngs::ThreadRng {
    rand::thread_rng()
}

/// Relies on rand::Rng::gen_range: returns a value within the given range;
/// here the range is the closed interval from one to six.
#[verifier::external_body]
fn sample_die(rng: &mut rand::rngs::ThreadRng) -> (r: i32)
    ensures
        1 <= r <= 6,
{
    rng.gen_range(1..=6)
}

/// Rolls one die: a pseudo-random value in `[1, 6]` drawn from the
/// process-local entropy source. Infallible; no inputs.
pub fn roll_dice() -> (r: i32)
    ensures
        1 <= r <= 6,
{
    let mut rng = fresh_rng();
    sample_die(&mut rng)
}

} // verus!
