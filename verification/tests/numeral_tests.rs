use count::numeral::{dec_u128, dec_usize};

#[test]
fn renders_zero() {
    assert_eq!(dec_u128(0), "0");
}

#[test]
fn renders_single_digits() {
    assert_eq!(dec_u128(5), "5");
    assert_eq!(dec_u128(9), "9");
}

#[test]
fn renders_round_and_mixed_numbers() {
    assert_eq!(dec_u128(10), "10");
    assert_eq!(dec_u128(42), "42");
    assert_eq!(dec_u128(1000), "1000");
    assert_eq!(dec_u128(987654321), "987654321");
}

#[test]
fn renders_the_largest_amount() {
    assert_eq!(
        dec_u128(u128::MAX),
        "340282366920938463463374607431768211455"
    );
}

#[test]
fn renders_counts() {
    assert_eq!(dec_usize(0), "0");
    assert_eq!(dec_usize(17), "17");
}
