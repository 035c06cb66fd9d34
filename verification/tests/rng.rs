use siege::rng::{mix_clock_bits, Rng};

/// `(u32::MAX as f32) * 2^-32` rounds up to exactly 1.0 in f32; the
/// 24-bit path must keep the worst-case output strictly below 1.0.
#[test]
#[allow(clippy::cast_precision_loss, clippy::float_cmp)]
fn f01_boundary_is_below_one() {
    assert_eq!((u32::MAX as f32) * (1.0 / 4_294_967_296.0), 1.0);
    let worst = (u32::MAX >> 8) as f32 * (1.0 / 16_777_216.0);
    assert!(worst < 1.0, "worst-case f01 = {worst}");
}

#[test]
fn seeded_streams_match_reference_words() {
    let mut r0 = Rng::seed(0);
    let w0: Vec<u32> = (0..4).map(|_| r0.next_u32()).collect();
    assert_eq!(w0, vec![1_613_493_245, 3_228_459_638, 2_642_674_550, 3_834_363_955]);
    let mut r1 = Rng::seed(1);
    let w1: Vec<u32> = (0..4).map(|_| r1.next_u32()).collect();
    assert_eq!(w1, vec![3_114_030_964, 2_913_886_992, 2_060_691_795, 1_294_096_966]);
    let mut r7 = Rng::seed(7);
    let w7: Vec<u32> = (0..4).map(|_| r7.next_u32()).collect();
    assert_eq!(w7, vec![3_409_023_181, 1_095_652_001, 3_767_639_805, 2_376_044_991]);
}

#[test]
fn identical_seeds_give_identical_sequences() {
    let mut a = Rng::seed(0x00C0_FFEE);
    let mut b = Rng::seed(0x00C0_FFEE);
    for _ in 0..10_000 {
        assert_eq!(a.next_u32(), b.next_u32());
    }
}

#[test]
fn clone_continues_the_same_stream() {
    let mut a = Rng::seed(42);
    let _ = a.next_u32();
    let mut b = a.clone();
    for _ in 0..100 {
        assert_eq!(a.next_u32(), b.next_u32());
    }
}

#[test]
fn next_u24_is_the_top_of_the_word_and_below_two_to_the_24() {
    let mut a = Rng::seed(3);
    let mut b = Rng::seed(3);
    for _ in 0..100_000 {
        let top = a.next_u24();
        assert_eq!(top, b.next_u32() >> 8);
        assert!(top < 1 << 24);
    }
    let mut r = Rng::seed(0);
    assert_eq!(r.next_u24(), 1_613_493_245 >> 8);
}

#[test]
fn unit_draws_stay_in_half_open_range() {
    let mut rng = Rng::seed(0x00C0_FFEE);
    for _ in 0..100_000 {
        let v = rng.next_u24() as f32 * (1.0 / 16_777_216.0);
        assert!((0.0..1.0).contains(&v), "draw out of [0, 1): {v}");
    }
}

#[test]
fn clock_bits_scramble_to_reference_seeds() {
    assert_eq!(mix_clock_bits(0), 0);
    assert_eq!(mix_clock_bits(1), 5_180_492_295_206_395_165);
    assert_eq!(mix_clock_bits(1.0f64.to_bits()), 6_387_369_460_409_065_472);
    assert_eq!(mix_clock_bits(1_700_000_000.25f64.to_bits()), 1_039_611_371_398_415_357);
}
