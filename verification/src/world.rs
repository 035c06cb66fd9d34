//! World layout — segment kinds of the castle and the deterministic
//! integer hash that places bricks, tufts, and wall-runner slots. The
//! simulation and the renderer share the hash, so when a wall falls the
//! flung bodies leave from exactly where the drawn runners stood.

use vstd::prelude::*;
use vstd::arithmetic::div_mod::{lemma_add_mod_noop, lemma_mod_twice};

verus! {

/// The four kinds of castle segment.
#[derive(Copy, Clone, PartialEq, Eq, Debug, Structural)]
pub enum SegmentKind {
    Tower,
    Curtain,
    Gate,
    Keep,
}

/// Reduction modulo 2^32, i.e. what wrapping `u32` arithmetic keeps.
pub open spec fn wrap32(x: int) -> u32 {
    (x % 0x1_0000_0000int) as u32
}

/// The 16-bit integer hash of a pair: a multiply-add mix of both inputs,
/// one xorshift-multiply round, a final xorshift, and the low 16 bits.
pub open spec fn hash_bits(a: u32, b: u32) -> u16 {
    let h = wrap32(a * 374_761_393 + b * 668_265_263);
    let m = wrap32((h ^ (h >> 13u32)) * 1_274_126_177);
    ((m ^ (m >> 16u32)) & 0xFFFF) as u16
}

/// Deterministic hash of two integers (bricks, tufts, runner slots); the
/// layout value in `[0, 1]` is this divided by 65 535.
pub fn hash2_bits(a: u32, b: u32) -> (r: u16)
    ensures
        r == hash_bits(a, b),
{
    let x = a.wrapping_mul(374_761_393);
    let y = b.wrapping_mul(668_265_263);
    let h = x.wrapping_add(y);
    proof {
        let m = 0x1_0000_0000int;
        let p = a as int * 374_761_393;
        let q = b as int * 668_265_263;
        lemma_add_mod_noop(p, q, m);
        lemma_mod_twice(p + q, m);
        assert(h == wrap32(p + q));
    }
    let mixed = h ^ (h >> 13u32);
    let m2 = mixed.wrapping_mul(1_274_126_177);
    let v = (m2 ^ (m2 >> 16u32)) & 0xFFFF;
    proof {
        assert(v <= 0xFFFF) by (bit_vector)
            requires
                v == (m2 ^ (m2 >> 16u32)) & 0xFFFF,
        ;
    }
    v as u16
}

} // verus!
