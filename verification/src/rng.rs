//! Folding raw noise readings into one entropy word.
//!
//! The device draws entropy from an analog pin: eight raw converter readings
//! per word.  Reading the pin is hardware work and stays outside the
//! library; the arithmetic that folds the readings into one 32-bit word is
//! verified here.  Each step shifts the accumulator up by four bits and adds
//! the next reading, wrapping modulo 2^32.

use vstd::prelude::*;

verus! {

/// How many raw readings feed one entropy word.
pub const SAMPLES_PER_WORD: usize = 8;

/// One fold step: the accumulator shifted up by four bits plus the next
/// reading, modulo 2^32.
pub open spec fn mix_step(acc: int, sample: int) -> int {
    (acc * 16 + sample) % 0x1_0000_0000
}

/// The word that a run of readings folds to, first reading first.
pub open spec fn mixed(samples: Seq<u16>) -> int
    decreases samples.len(),
{
    if samples.len() == 0 {
        0
    } else {
        mix_step(mixed(samples.drop_last()), samples.last() as int)
    }
}

/// Folds eight raw readings into one 32-bit entropy word.
pub fn mix_samples(samples: &[u16; 8]) -> (r: u32)
    ensures
        r as int == mixed(samples@),
{
    let mut res: u32 = 0;
    let mut i: usize = 0;
    while i < 8
        invariant
            i <= 8,
            samples@.len() == 8,
            res as int == mixed(samples@.take(i as int)),
        decreases 8 - i,
    {
        let wide: u64 = (res as u64) * 16 + (samples[i] as u64);
        res = (wide % 0x1_0000_0000) as u32;
        i = i + 1;
        proof {
            let t = samples@.take(i as int);
            assert(t.drop_last() =~= samples@.take(i - 1));
            assert(t.last() == samples@[i - 1]);
        }
    }
    proof {
        assert(samples@.take(8) =~= samples@);
    }
    res
}

} // verus!
