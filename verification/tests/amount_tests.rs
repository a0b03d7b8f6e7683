use nft::u256::U256;

fn max() -> U256 {
    U256::from_be_bytes([0xff; 32])
}

fn be(x: u128) -> [u8; 32] {
    let mut out = [0u8; 32];
    out[16..].copy_from_slice(&x.to_be_bytes());
    out
}

#[test]
fn from_u128_is_big_endian() {
    assert_eq!(U256::from_u128(0).to_be_bytes(), [0u8; 32]);
    assert_eq!(U256::from_u128(0x0102).to_be_bytes(), be(0x0102));
    assert_eq!(U256::from_u128(u128::MAX).to_be_bytes(), be(u128::MAX));
}

#[test]
fn lt_orders_by_value() {
    let one = U256::from_u128(1);
    let two = U256::from_u128(2);
    assert!(one.lt(&two));
    assert!(!two.lt(&one));
    assert!(!two.lt(&two));
    // a high byte outweighs every lower one
    let mut high = [0u8; 32];
    high[0] = 1;
    assert!(U256::from_u128(u128::MAX).lt(&U256::from_be_bytes(high)));
    assert!(two.lt(&max()));
}

#[test]
fn checked_add_sums_and_refuses_overflow() {
    let s = U256::from_u128(40).checked_add(&U256::from_u128(2)).unwrap();
    assert_eq!(s.to_be_bytes(), be(42));
    let carry = U256::from_u128(u128::MAX).checked_add(&U256::from_u128(1)).unwrap();
    let mut expected = [0u8; 32];
    expected[15] = 1;
    assert_eq!(carry.to_be_bytes(), expected);
    assert!(max().checked_add(&U256::from_u128(1)).is_none());
    assert_eq!(max().checked_add(&U256::from_u128(0)).unwrap(), max());
}

#[test]
fn checked_mul_multiplies_and_refuses_overflow() {
    let p = U256::from_u128(6).checked_mul(&U256::from_u128(7)).unwrap();
    assert_eq!(p.to_be_bytes(), be(42));
    assert!(max().checked_mul(&U256::from_u128(2)).is_none());
    let mut half = [0u8; 32];
    half[0] = 0x80;
    assert!(U256::from_be_bytes(half).checked_mul(&U256::from_u128(2)).is_none());
    assert_eq!(max().checked_mul(&U256::from_u128(1)).unwrap(), max());
}
