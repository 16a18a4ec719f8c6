//! Primitive numeric types: overflow policy, arithmetic and bitwise operators.
use vstd::prelude::*;

verus! {

/// The operands of the bitwise demonstration and each operator applied to them.
#[derive(Clone, Copy, Debug, PartialEq, Eq, Structural)]
pub struct BitOperations {
    pub a: u8,
    pub b: u8,
    pub and: u8,
    pub or: u8,
    pub xor: u8,
    pub not: u8,
    pub shl: u8,
    pub shr: u8,
}

/// Applies AND, OR, XOR, NOT, a left shift by one and a right shift by one to
/// the 4-bit patterns `0011` and `0101`, held in `u8`.
pub fn bit_operation() -> (r: BitOperations)
    ensures
        r.a == 0b0011u8,
        r.b == 0b0101u8,
        r.and == r.a & r.b,
        r.or == r.a | r.b,
        r.xor == r.a ^ r.b,
        r.not == !r.a,
        r.shl == r.a << 1u8,
        r.shr == r.a >> 1u8,
        r.and == 0b0001u8,
        r.or == 0b0111u8,
        r.xor == 0b0110u8,
        r.not == 0b1111_1100u8,
        r.shl == 0b0110u8,
        r.shr == 0b0001u8,
{
    let a: u8 = 0b0011;
    let b: u8 = 0b0101;
    let and = a & b;
    let or = a | b;
    let xor = a ^ b;
    let not = !a;
    let shl = a << 1u8;
    let shr = a >> 1u8;
    assert(and == 0b0001u8 && or == 0b0111u8 && xor == 0b0110u8) by (bit_vector)
        requires
            a == 0b0011u8,
            b == 0b0101u8,
            and == a & b,
            or == a | b,
            xor == a ^ b,
    ;
    assert(not == 0b1111_1100u8 && shl == 0b0110u8 && shr == 0b0001u8) by (bit_vector)
        requires
            a == 0b0011u8,
            not == !a,
            shl == a << 1u8,
            shr == a >> 1u8,
    ;
    BitOperations { a, b, and, or, xor, not, shl, shr }
}

/// The integer values of the typing demonstration: the same kind of number
/// written with an inferred type, an annotation and a literal suffix, their
/// sum, and a long literal written with digit separators.
#[derive(Clone, Copy, Debug, PartialEq, Eq, Structural)]
pub struct FundamentalValues {
    pub twenty: i32,
    pub twenty_one: i32,
    pub twenty_two: i32,
    pub addition: i32,
    pub one_million: i64,
}

/// Binds three `i32` values in the three ways of giving a literal its type,
/// adds them, and binds a long `i64` literal.
pub fn fundamental_example() -> (r: FundamentalValues)
    ensures
        r.twenty == 20,
        r.twenty_one == 21,
        r.twenty_two == 22,
        r.addition == r.twenty + r.twenty_one + r.twenty_two,
        r.addition == 63,
        r.one_million == 1_000_000,
{
    let twenty: i32 = 20;
    let twenty_one: i32 = 21;
    let twenty_two = 22i32;
    let addition = twenty + twenty_one + twenty_two;
    let one_million: i64 = 1_000_000;
    FundamentalValues { twenty, twenty_one, twenty_two, addition, one_million }
}

/// The integer results of the arithmetic demonstration.
#[derive(Clone, Copy, Debug, PartialEq, Eq, Structural)]
pub struct NumberOperations {
    pub sum: i32,
    pub product: i32,
    pub remainder: i32,
}

/// Adds 5 and 10, multiplies 4 by 30 and takes 43 modulo 5, all in `i32`.
pub fn number_operation() -> (r: NumberOperations)
    ensures
        r.sum == 5 + 10,
        r.product == 4 * 30,
        r.remainder == 43int % 5int,
        r.sum == 15,
        r.product == 120,
        r.remainder == 3,
{
    let sum: i32 = 5 + 10;
    let product: i32 = 4 * 30;
    let remainder: i32 = 43 % 5;
    NumberOperations { sum, product, remainder }
}

/// Adds 1 to the largest `u8` with wrapping arithmetic.
/// Returns the operand and the result, which wraps around to the smallest `u8`.
pub fn wrapping_example() -> (r: (u8, u8))
    ensures
        r.0 == u8::MAX,
        r.1 == (r.0 + 1) % 256,
        r.1 == 0,
{
    let a: u8 = 255;
    let b = a.wrapping_add(1);
    (a, b)
}

} // verus!
