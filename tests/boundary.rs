use rust_hello_world::boundary::rust_add;

#[test]
fn adds_without_overflow() {
    assert_eq!(rust_add(2, 3), 5);
}

#[test]
fn wraps_exactly_to_zero() {
    assert_eq!(rust_add(4294967295, 1), 0);
}

#[test]
fn wraps_with_remainder() {
    assert_eq!(rust_add(4294967295, 10), 9);
}

#[test]
fn wraps_at_both_maxima() {
    assert_eq!(rust_add(u32::MAX, u32::MAX), u32::MAX - 1);
}

#[test]
fn matches_sum_modulo_word() {
    let pairs: [(u32, u32); 5] = [
        (0, 0),
        (1, 2),
        (0x8000_0000, 0x8000_0000),
        (0xdead_beef, 0x1234_5678),
        (u32::MAX, 2),
    ];
    for (a, b) in pairs {
        let expected = ((a as u64 + b as u64) % 0x1_0000_0000) as u32;
        assert_eq!(rust_add(a, b), expected);
    }
}

#[test]
fn operand_order_does_not_matter() {
    assert_eq!(rust_add(7, 4294967290), rust_add(4294967290, 7));
    assert_eq!(rust_add(123, 456), rust_add(456, 123));
}

#[test]
fn zero_is_identity() {
    for a in [0u32, 1, 42, 0x7fff_ffff, u32::MAX] {
        assert_eq!(rust_add(a, 0), a);
    }
}
