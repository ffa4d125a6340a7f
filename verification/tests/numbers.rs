use dao_rollup::numbers::U256;

const MAX: U256 = U256 { hi: u128::MAX, lo: u128::MAX };

fn small(n: u64) -> U256 {
    U256::from_u64(n)
}

#[test]
fn addition_carries_into_the_high_half() {
    let a = U256 { hi: 3, lo: u128::MAX };
    assert_eq!(a.wrapping_add(small(1)), U256 { hi: 4, lo: 0 });
}

#[test]
fn addition_wraps_around() {
    assert_eq!(MAX.wrapping_add(small(1)), U256::zero());
    assert_eq!(MAX.wrapping_add(MAX), U256 { hi: u128::MAX, lo: u128::MAX - 1 });
    assert_eq!(small(2).wrapping_add(small(3)), small(5));
}

#[test]
fn subtraction_borrows_and_wraps_around() {
    assert_eq!(U256 { hi: 1, lo: 0 }.wrapping_sub(small(1)), U256 { hi: 0, lo: u128::MAX });
    assert_eq!(U256::zero().wrapping_sub(small(1)), MAX);
    assert_eq!(small(7).wrapping_sub(small(3)), small(4));
}

#[test]
fn doubling_and_halving() {
    assert_eq!(U256 { hi: 0, lo: 1 << 127 }.wrapping_double(), U256 { hi: 1, lo: 0 });
    assert_eq!(U256 { hi: 1 << 127, lo: 3 }.wrapping_double(), small(6));
    assert_eq!(U256 { hi: 3, lo: 5 }.half(), U256 { hi: 1, lo: (1 << 127) + 2 });
    assert_eq!(small(7).half(), small(3));
}

#[test]
fn order_goes_by_the_high_half_first() {
    assert!(U256 { hi: 0, lo: u128::MAX }.less_than(U256 { hi: 1, lo: 0 }));
    assert!(!U256 { hi: 1, lo: 0 }.less_than(U256 { hi: 0, lo: u128::MAX }));
    assert!(small(4).less_than(small(5)));
    assert!(!small(5).less_than(small(5)));
}

#[test]
fn conversions() {
    assert_eq!(small(u64::MAX).to_u64(), Some(u64::MAX));
    assert_eq!(U256 { hi: 0, lo: 1 << 64 }.to_u64(), None);
    assert_eq!(U256 { hi: 1, lo: 0 }.to_u64(), None);
    assert_eq!(U256::from_usize(12).to_usize(), Some(12));
    assert_eq!(MAX.to_usize(), None);
    assert_eq!(U256::one(), small(1));
}
