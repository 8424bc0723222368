use extendr_api::conversions::from_integerish::{F32Bits, IntoIntegerish};
use extendr_api::conversions::try_into_int::{ConversionError, F64Bits};
use extendr_api::na::CanBeNA;

#[test]
fn try_into_integerish_overflow() {
    let value = F64Bits((1.000000020000001e200f64).to_bits());
    let int_value: Result<i128, _> = value.try_into_integerish();
    println!("{:?}", &int_value);
    assert_eq!(int_value, Err(ConversionError::Overflow));
}

#[test]
fn try_into_integerish_underflow() {
    let value = F64Bits((-1.000000020000001e200f64).to_bits());
    let int_value: Result<i128, _> = value.try_into_integerish();
    println!("{:?}", &int_value);
    assert_eq!(int_value, Err(ConversionError::Underflow));
}

#[test]
fn comp_test() {
    let value = F64Bits::na();
    let int_value: Result<i64, _> = value.try_into_integerish();
    println!("{:?}", &int_value);
    assert_eq!(int_value, Err(ConversionError::NotIntegerish));
}

#[test]
fn zero_is_not_integerish() {
    let value = F64Bits((0.0f64).to_bits());
    let int_value: Result<i32, _> = value.try_into_integerish();
    assert_eq!(int_value, Err(ConversionError::NotIntegerish));
    let inf = F64Bits(f64::INFINITY.to_bits());
    let r: Result<i32, _> = inf.try_into_integerish();
    assert_eq!(r, Err(ConversionError::NotIntegerish));
}

#[test]
fn single_precision_values() {
    let v = F32Bits((42.0f32).to_bits());
    let a: Result<u8, _> = v.try_into_integerish();
    let b: Result<i64, _> = F32Bits((-3.0f32).to_bits()).try_into_integerish();
    let c: Result<i32, _> = F32Bits((2.5f32).to_bits()).try_into_integerish();
    assert_eq!(a, Ok(42));
    assert_eq!(b, Ok(-3));
    assert_eq!(c, Err(ConversionError::NotIntegerish));
    // i32::MAX as f32 rounds up to 2^31, which saturates
    let d: Result<i32, _> = F32Bits((2147483648.0f32).to_bits()).try_into_integerish();
    assert_eq!(d, Ok(i32::MAX));
    let e: Result<u8, _> = F32Bits((256.0f32).to_bits()).try_into_integerish();
    assert_eq!(e, Err(ConversionError::Overflow));
}
