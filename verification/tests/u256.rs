use stylus_toolkit::primitives::U256;

#[test]
fn zero_has_zero_limbs() {
    assert_eq!(U256::zero().into_limbs(), [0, 0, 0, 0]);
    assert_eq!(U256::zero(), U256::from_u64(0));
}

#[test]
fn small_amount_sits_in_lowest_limb() {
    assert_eq!(U256::from_u64(500).into_limbs(), [500, 0, 0, 0]);
    assert_eq!(U256::from_u64(u64::MAX).into_limbs(), [u64::MAX, 0, 0, 0]);
}

#[test]
fn limbs_round_trip() {
    let limbs = [1, 2, 3, 4];
    assert_eq!(U256::from_limbs(limbs).into_limbs(), limbs);
    assert_eq!(U256::from_limbs([u64::MAX; 4]).into_limbs(), [u64::MAX; 4]);
}

#[test]
fn sum_of_small_amounts() {
    assert_eq!(U256::from_u64(40).checked_add(U256::from_u64(2)), Some(U256::from_u64(42)));
    assert_eq!(U256::from_u64(40).checked_add(U256::zero()), Some(U256::from_u64(40)));
}

#[test]
fn sum_carries_into_next_limb() {
    assert_eq!(
        U256::from_u64(u64::MAX).checked_add(U256::from_u64(1)),
        Some(U256::from_limbs([0, 1, 0, 0]))
    );
    assert_eq!(
        U256::from_limbs([u64::MAX, u64::MAX, u64::MAX, 0]).checked_add(U256::from_u64(1)),
        Some(U256::from_limbs([0, 0, 0, 1]))
    );
    assert_eq!(
        U256::from_limbs([0, 0, 0, 5]).checked_add(U256::from_limbs([7, 0, 0, 6])),
        Some(U256::from_limbs([7, 0, 0, 11]))
    );
}

#[test]
fn sum_beyond_256_bits_is_none() {
    let max = U256::from_limbs([u64::MAX; 4]);
    assert_eq!(max.checked_add(U256::from_u64(1)), None);
    assert_eq!(max.checked_add(max), None);
    assert_eq!(max.checked_add(U256::zero()), Some(max));
    let half = U256::from_limbs([0, 0, 0, 1 << 63]);
    assert_eq!(half.checked_add(half), None);
}

#[test]
fn difference_of_small_amounts() {
    assert_eq!(U256::from_u64(100).checked_sub(U256::from_u64(40)), Some(U256::from_u64(60)));
    assert_eq!(U256::from_u64(100).checked_sub(U256::from_u64(100)), Some(U256::zero()));
    assert_eq!(U256::from_u64(100).checked_sub(U256::zero()), Some(U256::from_u64(100)));
}

#[test]
fn difference_borrows_from_next_limb() {
    assert_eq!(
        U256::from_limbs([0, 1, 0, 0]).checked_sub(U256::from_u64(1)),
        Some(U256::from_u64(u64::MAX))
    );
    assert_eq!(
        U256::from_limbs([0, 0, 0, 1]).checked_sub(U256::from_u64(1)),
        Some(U256::from_limbs([u64::MAX, u64::MAX, u64::MAX, 0]))
    );
}

#[test]
fn difference_below_zero_is_none() {
    assert_eq!(U256::from_u64(99).checked_sub(U256::from_u64(100)), None);
    assert_eq!(U256::zero().checked_sub(U256::from_u64(1)), None);
    assert_eq!(U256::from_limbs([5, 0, 0, 0]).checked_sub(U256::from_limbs([0, 0, 0, 1])), None);
    assert_eq!(
        U256::from_limbs([u64::MAX, 0, 0, 0]).checked_sub(U256::from_limbs([0, 1, 0, 0])),
        None
    );
}
