//! Deterministic PCG32 random number generator (permuted congruential
//! generator, XSH-RR output). Identical seeds produce identical sequences
//! on every platform, so AI behaviour and world decoration are
//! reproducible from a single `u64` seed.

use vstd::prelude::*;
use vstd::arithmetic::div_mod::{
    lemma_add_mod_noop, lemma_mod_equivalence, lemma_mod_multiples_vanish,
    lemma_mul_mod_noop_left, lemma_small_mod,
};

verus! {

/// LCG multiplier of the PCG32 reference generator.
pub const PCG_MULT: u64 = 6_364_136_223_846_793_005;
/// Stream increment (odd, so the LCG has full period).
pub const PCG_INC: u64 = 0xdead_beef;
/// Offset added when a seed is scrambled into an initial state.
pub const SEED_OFFSET: u64 = 1_442_695_040_888_963_407;
/// Multiplier of the xorshift64* clock-bits scrambler.
pub const CLOCK_MIX_MULT: u64 = 0x2545_F491_4F6C_DD1D;

/// Reduction modulo 2^64, i.e. what wrapping `u64` arithmetic keeps.
pub open spec fn wrap64(x: int) -> u64 {
    (x % 0x1_0000_0000_0000_0000int) as u64
}

/// Initial state derived from a seed: `seed * MULT + OFFSET (mod 2^64)`.
pub open spec fn seeded_state(seed: u64) -> u64 {
    wrap64(seed * PCG_MULT + SEED_OFFSET)
}

/// One LCG advance: `state * MULT + inc (mod 2^64)`.
pub open spec fn lcg_next(state: u64, inc: u64) -> u64 {
    wrap64(state * PCG_MULT + inc)
}

/// Right rotation of a 32-bit word by `r` places (`r < 32`).
pub open spec fn rotr32(x: u32, r: u32) -> u32 {
    (x >> r) | (x << ((32 - r) % 32) as u32)
}

/// XSH-RR output permutation of a state: xorshift the high bits down,
/// keep the low 32 bits of the shifted word, and rotate it right by the
/// top five bits of the state.
pub open spec fn pcg_output(state: u64) -> u32 {
    rotr32((((state >> 18u64) ^ state) >> 27u64) as u32, (state >> 59u64) as u32)
}

/// State after `n` draws starting from `state`.
pub open spec fn advance(state: u64, n: nat) -> u64
    decreases n,
{
    if n == 0 {
        state
    } else {
        lcg_next(advance(state, (n - 1) as nat), PCG_INC)
    }
}

/// The first `n` words drawn from a generator seeded with `seed`.
pub open spec fn seeded_stream(seed: u64, n: nat) -> Seq<u32> {
    Seq::new(n, |i: int| pcg_output(advance(seeded_state(seed), i as nat)))
}

/// xorshift64* scramble of raw clock bits into a seed.
pub open spec fn clock_seed(bits: u64) -> u64 {
    let a = bits ^ (bits >> 12u64);
    let b = a ^ (a << 25u64);
    let c = b ^ (b >> 27u64);
    wrap64(c * CLOCK_MIX_MULT)
}

/// PCG32 state (permuted congruential generator, XSH-RR output).
pub struct Rng {
    state: u64,
    inc: u64,
}

impl Rng {
    /// Every generator runs on the one fixed stream increment.
    #[verifier::type_invariant]
    spec fn well_formed(self) -> bool {
        self.inc == PCG_INC
    }

    /// The current 64-bit LCG state.
    pub closed spec fn state(self) -> u64 {
        self.state
    }

    /// Deterministically scramble `seed` into an initial PCG32 state.
    pub fn seed(seed: u64) -> (r: Self)
        ensures
            r.state() == seeded_state(seed),
            r.state() as int == (seed as int * 6_364_136_223_846_793_005int
                + 1_442_695_040_888_963_407int) % 0x1_0000_0000_0000_0000int,
    {
        let s = seed.wrapping_mul(PCG_MULT).wrapping_add(SEED_OFFSET);
        proof {
            lemma_wrapping_mul_add(seed, PCG_MULT, SEED_OFFSET);
        }
        Rng { state: s, inc: PCG_INC }
    }

    /// Standard PCG32 output word; the state advances by one LCG step.
    pub fn next_u32(&mut self) -> (r: u32)
        ensures
            r == pcg_output(old(self).state()),
            final(self).state() == lcg_next(old(self).state(), PCG_INC),
            final(self).state() as int == (old(self).state() as int * 6_364_136_223_846_793_005int
                + 0xdead_beefint) % 0x1_0000_0000_0000_0000int,
            forall|i: u32|
                i < 32 ==> (r >> i) & 1 == ((((old(self).state() >> 18u64) ^ old(self).state())
                    >> 27u64) as u32 >> ((i + (old(self).state() >> 59u64) as u32) % 32)) & 1,
    {
        proof {
            use_type_invariant(&*self);
        }
        let old = self.state;
        let inc = self.inc;
        proof {
            lemma_wrapping_mul_add(old, PCG_MULT, inc);
        }
        self.state = old.wrapping_mul(PCG_MULT).wrapping_add(inc);
        let xorshifted = (((old >> 18u64) ^ old) >> 27u64) as u32;
        let rot = (old >> 59u64) as u32;
        proof {
            assert(old >> 59u64 < 32) by (bit_vector);
            assert forall|i: u32| i < 32 implies (rotr32(xorshifted, rot) >> i) & 1 == (xorshifted
                >> ((i + rot) % 32)) & 1 by {
                lemma_rotr32_moves_bits(xorshifted, rot, i);
            }
        }
        rotate_right_u32(xorshifted, rot)
    }

    /// The top 24 bits of the next output word: the numerator of a
    /// uniform draw on `[0, 1)` with step `2^-24`. Its largest value,
    /// `2^24 - 1`, keeps that draw strictly below one.
    pub fn next_u24(&mut self) -> (r: u32)
        ensures
            r == pcg_output(old(self).state()) >> 8u32,
            r < 0x100_0000,
            final(self).state() == lcg_next(old(self).state(), PCG_INC),
    {
        let w = self.next_u32();
        proof {
            assert(w >> 8u32 < 0x100_0000u32) by (bit_vector);
        }
        w >> 8u32
    }
}

impl Clone for Rng {
    /// A clone continues the same stream from the same state.
    fn clone(&self) -> (r: Self)
        ensures
            r.state() == self.state(),
    {
        proof {
            use_type_invariant(self);
        }
        Rng { state: self.state, inc: self.inc }
    }
}

/// Scramble raw clock bits (the platform time's `f64` bit pattern) into a
/// fresh round seed with one xorshift64* round.
pub fn mix_clock_bits(bits: u64) -> (r: u64)
    ensures
        r == clock_seed(bits),
{
    let mut x = bits;
    x = x ^ (x >> 12u64);
    x = x ^ (x << 25u64);
    x = x ^ (x >> 27u64);
    proof {
        lemma_wrapping_mul_add(x, CLOCK_MIX_MULT, 0);
    }
    x.wrapping_mul(CLOCK_MIX_MULT)
}

/// Rotate a 32-bit word right by `r` places, wrapping the bits shifted out
/// at the bottom back in at the top.
fn rotate_right_u32(x: u32, r: u32) -> (res: u32)
    requires
        r < 32,
    ensures
        res == rotr32(x, r),
{
    (x >> r) | (x << ((32 - r) % 32))
}

/// Wrapping multiply-then-add agrees with the exact result reduced mod 2^64.
proof fn lemma_wrapping_mul_add(x: u64, m: u64, c: u64)
    ensures
        x.wrapping_mul(m).wrapping_add(c) == wrap64(x * m + c),
        x.wrapping_mul(m) == wrap64(x * m),
{
    let p = x as int * m as int;
    let modulus = 0x1_0000_0000_0000_0000int;
    lemma_add_mod_noop(p, c as int, modulus);
    assert((p % modulus) % modulus == p % modulus) by {
        vstd::arithmetic::div_mod::lemma_mod_twice(p, modulus);
    }
    assert(c as int % modulus == c as int);
}

/// Rotation law: bit `i` of the rotated word is bit `(i + r) mod 32` of
/// the original, so no bit is lost or duplicated.
pub proof fn lemma_rotr32_moves_bits(x: u32, r: u32, i: u32)
    requires
        r < 32,
        i < 32,
    ensures
        (rotr32(x, r) >> i) & 1 == (x >> ((i + r) % 32)) & 1,
{
    assert(((x >> r) | (x << ((32 - r) % 32) as u32)) >> i & 1 == (x >> ((i + r) % 32)) & 1)
        by (bit_vector)
        requires
            r < 32,
            i < 32,
    ;
}

/// Seeding law: the initial state of a seed is `seed * 6364136223846793005
/// + 1442695040888963407 (mod 2^64)` — the whole 64-bit seed counts — and
/// distinct seeds give distinct states (the multiplier is odd, hence
/// invertible mod 2^64), so distinct seeds start distinct streams.
pub proof fn lemma_seeding(a: u64, b: u64)
    ensures
        seeded_state(a) as int == (a as int * 6_364_136_223_846_793_005int
            + 1_442_695_040_888_963_407int) % 0x1_0000_0000_0000_0000int,
        lcg_next(a, PCG_INC) as int == (a as int * 6_364_136_223_846_793_005int + 0xdead_beefint)
            % 0x1_0000_0000_0000_0000int,
        a != b ==> seeded_state(a) != seeded_state(b),
        a != b ==> lcg_next(a, PCG_INC) != lcg_next(b, PCG_INC),
{
    if a != b {
        if a < b {
            lemma_affine_injective(b, a, SEED_OFFSET as int);
            lemma_affine_injective(b, a, PCG_INC as int);
        } else {
            lemma_affine_injective(a, b, SEED_OFFSET as int);
            lemma_affine_injective(a, b, PCG_INC as int);
        }
    }
}

/// `x ↦ x * MULT + c (mod 2^64)` separates distinct 64-bit values.
proof fn lemma_affine_injective(a: u64, b: u64, c: int)
    requires
        a > b,
    ensures
        (a * PCG_MULT + c) % 0x1_0000_0000_0000_0000int != (b * PCG_MULT + c)
            % 0x1_0000_0000_0000_0000int,
{
    let m = 0x1_0000_0000_0000_0000int;
    let mult = PCG_MULT as int;
    let inv = 13_877_824_140_714_322_085int;
    let d = a as int - b as int;
    let x = a as int * mult + c;
    let y = b as int * mult + c;
    if x % m == y % m {
        lemma_mod_equivalence(x, y, m);
        assert(x - y == d * mult) by (nonlinear_arith)
            requires
                x == a as int * mult + c,
                y == b as int * mult + c,
                d == a as int - b as int,
        ;
        assert((d * mult) % m == 0);
        lemma_mul_mod_noop_left(d * mult, inv, m);
        assert(((d * mult) % m) * inv % m == 0);
        assert((d * mult) * inv % m == 0);
        let q = 4_787_856_489_426_250_814int;
        assert(mult * inv == q * m + 1);
        assert((d * mult) * inv == m * (d * q) + d) by (nonlinear_arith)
            requires
                mult * inv == q * m + 1,
        ;
        lemma_mod_multiples_vanish(d * q, d, m);
        assert(d % m == 0);
        lemma_small_mod(d as nat, m as nat);
        assert(false);
    }
}

/// Stream law: the stream of a seed grows by one word per draw, word `n`
/// being the output of the state `n` LCG steps past the seeded state —
/// the state `seed` establishes and each `next_u32` advances. The stream
/// is a function of the seed alone, so two generators built from one seed
/// agree draw for draw.
pub proof fn lemma_stream_extends(seed: u64, n: nat)
    ensures
        seeded_stream(seed, n + 1) == seeded_stream(seed, n).push(
            pcg_output(advance(seeded_state(seed), n)),
        ),
        advance(seeded_state(seed), n + 1) == lcg_next(advance(seeded_state(seed), n), PCG_INC),
{
    assert(seeded_stream(seed, n + 1) =~= seeded_stream(seed, n).push(
        pcg_output(advance(seeded_state(seed), n)),
    ));
}

} // verus!
