//! The deterministic draw that picks a round's lucky number from the
//! contract's seed and the round's entropy.

use vstd::prelude::*;

use crate::digest::{sha256, sha256_digest};
use crate::bytes::{append_bytes, be_u32_value};

verus! {

/// A draw source fixed by a seed and an entropy string.
pub struct Prng {
    seed: Vec<u8>,
    entropy: Vec<u8>,
}

/// The 32-bit number read from the first four bytes of the digest of
/// `seed` followed by `entropy`.
pub open spec fn draw_word(seed: Seq<u8>, entropy: Seq<u8>) -> int {
    let d = sha256(seed + entropy);
    be_u32_value(d[0], d[1], d[2], d[3])
}

/// The option that a source made from `seed` and `entropy` selects among
/// `options` options.
pub open spec fn draw(seed: Seq<u8>, entropy: Seq<u8>, options: u32) -> int {
    draw_word(seed, entropy) % (options as int)
}

impl Prng {
    pub closed spec fn seed(&self) -> Seq<u8> {
        self.seed@
    }

    pub closed spec fn entropy(&self) -> Seq<u8> {
        self.entropy@
    }

    /// A source for the given seed and entropy.
    pub fn new(seed: &[u8], entropy: &[u8]) -> (rng: Prng)
        ensures
            rng.seed() == seed@,
            rng.entropy() == entropy@,
    {
        let mut s: Vec<u8> = Vec::new();
        append_bytes(&mut s, seed);
        let mut e: Vec<u8> = Vec::new();
        append_bytes(&mut e, entropy);
        assert(s@ =~= seed@);
        assert(e@ =~= entropy@);
        Prng { seed: s, entropy: e }
    }

    /// Selects one of `options` options, numbered from 0.
    pub fn select_one_of(&self, options: u32) -> (choice: u32)
        requires
            options > 0,
        ensures
            choice < options,
            choice == draw(self.seed(), self.entropy(), options),
    {
        let mut input: Vec<u8> = Vec::new();
        append_bytes(&mut input, self.seed.as_slice());
        append_bytes(&mut input, self.entropy.as_slice());
        let d = sha256_digest(input.as_slice());
        let word: u32 = (d[0] as u32) * 16777216u32 + (d[1] as u32) * 65536u32
            + (d[2] as u32) * 256u32 + (d[3] as u32);
        word % options
    }
}

} // verus!
