//! A deterministic 2D noise source.
//!
//! Shading samples one scalar of procedural noise per fragment.  The sampler
//! here is a seeded integer hash: it is a pure function of the seed and the
//! two coordinates, and its result always lies in `[-SCALE, SCALE]` (the
//! fixed-point form of `[-1, 1]`).  Nothing downstream depends on any further
//! structure of the noise, so any deterministic in-range sampler would serve.

use vstd::prelude::*;
use crate::fixed::{emod_i64, SCALE};

verus! {

/// A noise-sampling capability: a seeded, deterministic 2D noise function.
#[derive(Clone, Copy, Debug, PartialEq, Eq)]
pub struct NoiseFx {
    pub seed: u64,
}

/// The sampled noise value: the coordinates are wrapped into 32 bits, folded
/// with the seed through a multiplicative hash, squared once to mix, and
/// mapped onto `[-SCALE, SCALE]`.
pub open spec fn spec_noise(seed: int, x: int, y: int) -> int {
    let xm = x % 0x100000000;
    let ym = y % 0x100000000;
    let h = (xm * 0x9E3779B1 + ym * 0x85EBCA77 + seed * 0xC2B2AE3D + 0x27D4EB2F)
        % 0x1FFFFFFFFFFFFFFF;
    let h2 = (h * h + h) % 0x1FFFFFFFFFFFFFFF;
    h2 % (2 * (SCALE as int) + 1) - SCALE
}

impl NoiseFx {
    /// A sampler from a seed.
    pub fn new(seed: u64) -> (n: NoiseFx)
        ensures
            n.seed == seed,
    {
        NoiseFx { seed }
    }

    /// Sample the noise field at a fixed-point coordinate pair.  The result
    /// is deterministic in the seed and the coordinates, and lies in
    /// `[-SCALE, SCALE]`.
    pub fn get_noise_2d(&self, x: i64, y: i64) -> (n: i64)
        ensures
            n as int == spec_noise(self.seed as int, x as int, y as int),
            -SCALE <= n <= SCALE,
    {
        let xm: u64 = emod_i64(x, 0x100000000);
        let ym: u64 = emod_i64(y, 0x100000000);
        let mixed: u128 = (xm as u128) * 0x9E3779B1 + (ym as u128) * 0x85EBCA77
            + (self.seed as u128) * 0xC2B2AE3D + 0x27D4EB2F;
        let h: u128 = mixed % 0x1FFFFFFFFFFFFFFF;
        proof {
            assert((h as int) * (h as int) < 0x40000000000000000000000000000000)
                by (nonlinear_arith)
                requires
                    0 <= h as int,
                    (h as int) < 0x2000000000000000,
            ;
        }
        let h2: u128 = (h * h + h) % 0x1FFFFFFFFFFFFFFF;
        let v: u128 = h2 % (2 * (SCALE as u128) + 1);
        (v as i64) - SCALE
    }
}

} // verus!
