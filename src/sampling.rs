use vstd::prelude::*;

verus! {

/// Default global-phase top-k when the request leaves it at 0.
pub const DEFAULT_GLOBAL_TOP_K: usize = 20;

/// Fixed semantic-phase top-k.
pub const SEMANTIC_TOP_K: usize = 80;

/// Where a decoding phase draws its random numbers from.
#[derive(Clone, Copy, Debug, PartialEq, Eq, Structural)]
pub enum RngSource {
    /// A generator seeded with this value.
    Seeded(u64),
    /// A generator seeded from operating-system entropy.
    Entropy,
    /// The caller's generator, shared by both phases.
    Shared,
}

/// `seed + offset` modulo 2^64.
pub open spec fn wrapped_seed(seed: u64, offset: u64) -> int {
    (seed + offset) % 0x1_0000_0000_0000_0000
}

pub open spec fn rng_source_spec(use_independent_seeds: bool, seed: Option<u64>, phase_offset: u64) -> RngSource {
    if use_independent_seeds {
        match seed {
            Some(s) => RngSource::Seeded(wrapped_seed(s, phase_offset) as u64),
            None => RngSource::Entropy,
        }
    } else {
        RngSource::Shared
    }
}

/// The generator a phase uses: with independent seeds, the request's seed plus the
/// phase's offset (wrapping), or entropy when no seed was given; otherwise the
/// caller's generator.
pub fn phase_rng_source(use_independent_seeds: bool, seed: Option<u64>, phase_offset: u64) -> (r:
    RngSource)
    ensures
        r == rng_source_spec(use_independent_seeds, seed, phase_offset),
{
    if use_independent_seeds {
        match seed {
            Some(s) => {
                let v: u64 = if s <= u64::MAX - phase_offset {
                    s + phase_offset
                } else {
                    ((s as u128 + phase_offset as u128) - 0x1_0000_0000_0000_0000u128) as u64
                };
                RngSource::Seeded(v)
            },
            None => RngSource::Entropy,
        }
    } else {
        RngSource::Shared
    }
}

/// Base top-k of the global phase before fidelity scaling: 0 means the default of 20.
pub fn global_top_k_base(top_k: usize) -> (r: usize)
    ensures
        r == (if top_k == 0 { DEFAULT_GLOBAL_TOP_K } else { top_k }),
{
    if top_k == 0 {
        DEFAULT_GLOBAL_TOP_K
    } else {
        top_k
    }
}

} // verus!
