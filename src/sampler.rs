//! Salts drawn from a random generator owned by the sampler.

use vstd::prelude::*;
use rand::rngs::ThreadRng;

verus! {

#[verifier::external_type_specification]
#[verifier::external_body]
pub struct ExThreadRng(ThreadRng);

/// Relies on `rand::thread_rng`: a handle to this thread's generator.
#[verifier::external_body]
fn thread_generator() -> (r: ThreadRng) {
    rand::thread_rng()
}

/// Relies on `rand::RngCore::fill_bytes`: fills a fresh 32-byte buffer with random bytes.
#[verifier::external_body]
fn fill_word(rng: &mut ThreadRng) -> (r: [u8; 32]) {
    let mut word = [0u8; 32];
    rand::RngCore::fill_bytes(rng, &mut word);
    word
}

/// Draws independent, uniformly random 32-byte salts.
pub struct SaltSampler {
    rng: ThreadRng,
}

impl SaltSampler {
    /// A sampler over this thread's random generator.
    pub fn new() -> (r: SaltSampler) {
        SaltSampler { rng: thread_generator() }
    }

    /// The next salt; nothing is known of its value.
    pub fn next_salt(&mut self) -> (r: [u8; 32]) {
        fill_word(&mut self.rng)
    }
}

} // verus!
