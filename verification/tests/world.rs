use siege::world::{hash2_bits, SegmentKind};

#[test]
fn hash_matches_reference_values() {
    assert_eq!(hash2_bits(0, 0), 0);
    assert_eq!(hash2_bits(1, 5), 8_546);
    assert_eq!(hash2_bits(14, 9), 25_755);
    assert_eq!(hash2_bits(7, 3), 27_015);
    assert_eq!(hash2_bits(u32::MAX, u32::MAX), 48_113);
}

#[test]
fn hash_is_deterministic_and_layout_value_in_unit_range() {
    for a in 0..50u32 {
        for b in 0..20u32 {
            let h = hash2_bits(a, b);
            assert_eq!(h, hash2_bits(a, b));
            let v = f32::from(h) / 65_535.0;
            assert!((0.0..=1.0).contains(&v));
        }
    }
    assert_ne!(SegmentKind::Tower, SegmentKind::Keep);
}
