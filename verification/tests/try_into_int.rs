use extendr_api::conversions::try_into_int::{ConversionError, F64Bits, FloatToInt};
use extendr_api::na::CanBeNA;

type ConversionResult<T, E> = std::result::Result<T, E>;

fn bits(value: f64) -> F64Bits {
    F64Bits(value.to_bits())
}

#[test]
fn test_exact_zero() {
    let value = bits(0.0);
    let int_value: ConversionResult<i32, _> = value.try_into_int();
    assert_eq!(int_value, Ok(0));
}

#[test]
fn test_exact_negative_zero() {
    let value = bits(-0.0);
    let int_value: ConversionResult<i32, _> = value.try_into_int();
    assert_eq!(int_value, Ok(0));
}

#[test]
fn large_value_overflow() {
    let value = bits(1.000000020000001e200);
    let int_value: ConversionResult<i32, _> = value.try_into_int();
    assert_eq!(int_value, Err(ConversionError::Overflow))
}

#[test]
fn large_negative_value_underflow() {
    let value = bits(-1.000000020000001e200);
    let int_value: ConversionResult<i32, _> = value.try_into_int();
    assert_eq!(int_value, Err(ConversionError::Underflow))
}

#[test]
fn na_not_integerish() {
    let value = F64Bits::na();
    let int_value: ConversionResult<i32, _> = value.try_into_int();
    assert_eq!(int_value, Err(ConversionError::NotIntegerish));
}

#[test]
fn fractional_not_integerish() {
    let value = bits(1.5);
    let int_value: ConversionResult<i32, _> = value.try_into_int();
    assert_eq!(int_value, Err(ConversionError::NotIntegerish))
}

#[test]
fn negative_fractional_not_integerish() {
    let value = bits(-1.5);
    let int_value: ConversionResult<i32, _> = value.try_into_int();
    assert_eq!(int_value, Err(ConversionError::NotIntegerish))
}

#[test]
fn small_integerish_negative_to_unsigned_underflow() {
    let value = bits(-1.0);
    let int_value: ConversionResult<u32, _> = value.try_into_int();
    assert_eq!(int_value, Err(ConversionError::Underflow))
}

#[test]
fn integerish_converts_successfully() {
    let value = bits(42.0);

    assert_eq!(FloatToInt::<i128>::try_into_int(&value), Ok(42));
    assert_eq!(FloatToInt::<i64>::try_into_int(&value), Ok(42));
    assert_eq!(FloatToInt::<i32>::try_into_int(&value), Ok(42));
    assert_eq!(FloatToInt::<i16>::try_into_int(&value), Ok(42));
    assert_eq!(FloatToInt::<i8>::try_into_int(&value), Ok(42));

    assert_eq!(FloatToInt::<u128>::try_into_int(&value), Ok(42));
    assert_eq!(FloatToInt::<u64>::try_into_int(&value), Ok(42));
    assert_eq!(FloatToInt::<u32>::try_into_int(&value), Ok(42));
    assert_eq!(FloatToInt::<u16>::try_into_int(&value), Ok(42));
    assert_eq!(FloatToInt::<u8>::try_into_int(&value), Ok(42));
}

#[test]
fn infinities_overflow_and_underflow() {
    let pos: ConversionResult<i64, _> = bits(f64::INFINITY).try_into_int();
    let neg: ConversionResult<i64, _> = bits(f64::NEG_INFINITY).try_into_int();
    assert_eq!(pos, Err(ConversionError::Overflow));
    assert_eq!(neg, Err(ConversionError::Underflow));
}

#[test]
fn nan_and_subnormal_not_integerish() {
    let nan: ConversionResult<i32, _> = bits(f64::NAN).try_into_int();
    let sub: ConversionResult<i32, _> = bits(f64::MIN_POSITIVE / 2.0).try_into_int();
    assert_eq!(nan, Err(ConversionError::NotIntegerish));
    assert_eq!(sub, Err(ConversionError::NotIntegerish));
}

#[test]
fn bounds_of_i32_are_exact() {
    let max: ConversionResult<i32, _> = bits(2147483647.0).try_into_int();
    let min: ConversionResult<i32, _> = bits(-2147483648.0).try_into_int();
    let above: ConversionResult<i32, _> = bits(2147483648.0).try_into_int();
    let below: ConversionResult<i32, _> = bits(-2147483649.0).try_into_int();
    assert_eq!(max, Ok(i32::MAX));
    assert_eq!(min, Ok(i32::MIN));
    assert_eq!(above, Err(ConversionError::Overflow));
    assert_eq!(below, Err(ConversionError::Underflow));
}

#[test]
fn rounded_maximum_of_i64_saturates() {
    // i64::MAX as f64 rounds up to 2^63; that value is accepted and saturates.
    let at: ConversionResult<i64, _> = bits(9223372036854775808.0).try_into_int();
    let beyond: ConversionResult<i64, _> = bits(18446744073709551616.0).try_into_int();
    let min: ConversionResult<i64, _> = bits(-9223372036854775808.0).try_into_int();
    assert_eq!(at, Ok(i64::MAX));
    assert_eq!(beyond, Err(ConversionError::Overflow));
    assert_eq!(min, Ok(i64::MIN));
    let wide: ConversionResult<i128, _> = bits(9223372036854775808.0).try_into_int();
    assert_eq!(wide, Ok(9223372036854775808));
}

#[test]
fn negative_fraction_into_unsigned() {
    // -0.5 truncates to -0, which is not below 0, then is not whole
    let v: ConversionResult<u8, _> = bits(-0.5).try_into_int();
    assert_eq!(v, Err(ConversionError::NotIntegerish));
    let w: ConversionResult<u8, _> = bits(-1.5).try_into_int();
    assert_eq!(w, Err(ConversionError::Underflow));
}

#[test]
fn pointer_sized_targets() {
    let v: ConversionResult<usize, _> = bits(12.0).try_into_int();
    let w: ConversionResult<isize, _> = bits(-12.0).try_into_int();
    assert_eq!(v, Ok(12));
    assert_eq!(w, Ok(-12));
}

#[test]
fn conversion_error_messages() {
    assert_eq!(ConversionError::Underflow.message(), "underflow");
    assert_eq!(ConversionError::Overflow.message(), "overflow");
    assert_eq!(ConversionError::NotIntegerish.message(), "not a whole number");
}
