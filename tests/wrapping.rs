use trait_values::wrapping::WrappingU32;

#[test]
fn test_ops() {
    let x = WrappingU32::new(42);
    let y = WrappingU32::new(31);
    let z = WrappingU32::new(u32::MAX);
    assert_eq!(x + y + y + z, WrappingU32::new(103));
}

#[test]
fn add_without_overflow_is_plain_sum() {
    assert_eq!(WrappingU32::new(2) + WrappingU32::new(3), WrappingU32::new(5));
    assert_eq!((WrappingU32::new(7) + WrappingU32::new(0)).value(), 7);
}

#[test]
fn add_at_the_boundary_wraps_to_zero() {
    assert_eq!(WrappingU32::new(u32::MAX) + WrappingU32::new(1), WrappingU32::new(0));
    assert_eq!(
        WrappingU32::new(u32::MAX) + WrappingU32::new(u32::MAX),
        WrappingU32::new(u32::MAX - 1)
    );
}

#[test]
fn add_matches_sum_modulo_two_to_the_32() {
    let cases: [(u32, u32); 5] = [
        (0, 0),
        (1, u32::MAX),
        (3_000_000_000, 3_000_000_000),
        (123_456, 654_321),
        (u32::MAX / 2, u32::MAX / 2 + 2),
    ];
    for (a, b) in cases {
        let expected = ((a as u64 + b as u64) % (1u64 << 32)) as u32;
        assert_eq!(WrappingU32::new(a) + WrappingU32::new(b), WrappingU32::new(expected));
    }
}

#[test]
fn chained_add_equals_one_accumulated_sum() {
    let values: [u32; 4] = [4_000_000_000, 500_000_000, 4_000_000_000, 17];
    let mut acc = WrappingU32::new(0);
    let mut total: u64 = 0;
    for v in values {
        acc = acc + WrappingU32::new(v);
        total += v as u64;
    }
    assert_eq!(acc.value(), (total % (1u64 << 32)) as u32);
}

#[test]
fn operands_are_left_unchanged() {
    let x = WrappingU32::new(10);
    let y = WrappingU32::new(u32::MAX);
    let _ = x + y;
    assert_eq!(x.value(), 10);
    assert_eq!(y.value(), u32::MAX);
}
