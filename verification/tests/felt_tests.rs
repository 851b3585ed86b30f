use mp_starknet::felt::{Felt252Wrapper, Felt252WrapperError, U256Wrapper};

#[test]
fn felt_from_u64_round_trips_through_u64() {
    let f = Felt252Wrapper::from_u64(0xdead_beef);
    assert_eq!(f.try_into_u64(), Ok(0xdead_beef));
}

#[test]
fn felt_too_wide_for_u64_is_rejected() {
    let f = Felt252Wrapper::from_u128(0x1_0000_0000_0000_0000);
    assert_eq!(f.try_into_u64(), Err(Felt252WrapperError::ValueTooLarge));
}

#[test]
fn u256_below_prime_narrows_exactly() {
    let v = U256Wrapper { hi: 0x0800_0000_0000_0011_0000_0000_0000_0000 - 1, lo: u128::MAX };
    let f = Felt252Wrapper::try_from_u256(&v).unwrap();
    assert_eq!(f.hi, v.hi);
    assert_eq!(f.lo, v.lo);
}

#[test]
fn u256_at_prime_is_out_of_range() {
    // The prime itself: high half 0x0800...0011 << 64, low half 1.
    let v = U256Wrapper { hi: 0x0800_0000_0000_0011_0000_0000_0000_0000, lo: 1 };
    assert_eq!(Felt252Wrapper::try_from_u256(&v), Err(Felt252WrapperError::OutOfRange));
}

#[test]
fn u256_just_below_prime_is_accepted() {
    let v = U256Wrapper { hi: 0x0800_0000_0000_0011_0000_0000_0000_0000, lo: 0 };
    assert!(Felt252Wrapper::try_from_u256(&v).is_ok());
}

#[test]
fn u256_zero_is_default() {
    assert_eq!(U256Wrapper::zero(), U256Wrapper::default());
}
