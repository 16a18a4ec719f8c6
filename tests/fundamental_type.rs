use language_basics::fundamental_type::{
    bit_operation, fundamental_example, number_operation, wrapping_example, BitOperations,
};

#[test]
fn wrapping_add_of_u8_max_gives_zero() {
    let (a, b) = wrapping_example();
    assert_eq!(a, 255u8);
    assert_eq!(b, 0u8);
}

#[test]
fn remainder_of_43_by_5_is_3() {
    let r = number_operation();
    assert_eq!(r.remainder, 3);
}

#[test]
fn sum_and_product() {
    let r = number_operation();
    assert_eq!(r.sum, 15);
    assert_eq!(r.product, 120);
}

#[test]
fn and_or_xor_of_four_bit_patterns() {
    let r = bit_operation();
    assert_eq!(r.a, 0b0011);
    assert_eq!(r.b, 0b0101);
    assert_eq!(r.and, 0b0001);
    assert_eq!(r.or, 0b0111);
    assert_eq!(r.xor, 0b0110);
}

#[test]
fn not_and_shifts() {
    let r = bit_operation();
    assert_eq!(r.not, 0b1111_1100);
    assert_eq!(r.shl, 0b0110);
    assert_eq!(r.shr, 0b0001);
    assert_eq!(format!("{:04b}", r.shl), "0110");
}

#[test]
fn bit_operations_as_one_record() {
    let expected = BitOperations {
        a: 3,
        b: 5,
        and: 1,
        or: 7,
        xor: 6,
        not: 252,
        shl: 6,
        shr: 1,
    };
    assert_eq!(bit_operation(), expected);
}

#[test]
fn typed_literals_and_their_sum() {
    let r = fundamental_example();
    assert_eq!(r.twenty, 20);
    assert_eq!(r.twenty_one, 21);
    assert_eq!(r.twenty_two, 22);
    assert_eq!(r.addition, 63);
    assert_eq!(r.one_million, 1_000_000i64);
}
