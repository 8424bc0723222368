//! Conversion of normal floats into integers, failing on values that are
//! not normal, out of range or not whole numbers.
use vstd::prelude::*;
use crate::conversions::ieee::{
    class_of, holds_whole, lemma_above_range, lemma_below_range, lemma_whole_in_range,
    magnitude_at_least, sign_field, FloatClass,
    convert_bits, float_to_integerish, lemma_f32_pattern, lemma_f64_pattern,
    lemma_integer_bounds, value_signed,
};
use crate::conversions::try_into_int::F64Bits;
pub use crate::conversions::ieee::ConversionError;

verus! {

/// An `f32`, held as its IEEE-754 bit pattern (`f32::to_bits`).
#[derive(Debug, Clone, Copy, PartialEq, Eq, Structural)]
pub struct F32Bits(pub u32);

/// Conversion of a float into the integer type `T`, accepting normal numbers
/// only: NaNs, infinities, zeros and subnormals are not whole numbers. A
/// normal value is truncated toward zero and compared with the bounds of `T`
/// (as the float type rounds them), then must equal its truncation.
pub trait IntoIntegerish<T: Sized> {
    /// The integer that a value of `T` holds.
    spec fn int_of(v: T) -> int;

    /// The outcome that the conversion of `self` is specified to have.
    spec fn spec_try_into_integerish(&self) -> Result<int, ConversionError>;

    fn try_into_integerish(&self) -> (r: Result<T, ConversionError>)
        ensures
            match r {
                Ok(v) => self.spec_try_into_integerish() == Ok::<int, ConversionError>(Self::int_of(v)),
                Err(e) => self.spec_try_into_integerish() == Err::<int, ConversionError>(e),
            },
    ;
}

impl IntoIntegerish<i128> for F64Bits {
    open spec fn int_of(v: i128) -> int {
        v as int
    }

    open spec fn spec_try_into_integerish(&self) -> Result<int, ConversionError> {
        float_to_integerish(self.0 as nat, 52, 11, true, 127)
    }

    fn try_into_integerish(&self) -> Result<i128, ConversionError> {
        proof {
            lemma_f64_pattern(self.0);
            lemma_integer_bounds();
        }
        match convert_bits(self.0, 52, 11, true, 127, true) {
            Ok((neg, mag)) => Ok(value_signed(neg, mag) as i128),
            Err(e) => Err(e),
        }
    }
}

impl IntoIntegerish<u128> for F64Bits {
    open spec fn int_of(v: u128) -> int {
        v as int
    }

    open spec fn spec_try_into_integerish(&self) -> Result<int, ConversionError> {
        float_to_integerish(self.0 as nat, 52, 11, false, 128)
    }

    fn try_into_integerish(&self) -> Result<u128, ConversionError> {
        proof {
            lemma_f64_pattern(self.0);
            lemma_integer_bounds();
        }
        match convert_bits(self.0, 52, 11, false, 128, true) {
            Ok((neg, mag)) => Ok(mag as u128),
            Err(e) => Err(e),
        }
    }
}

impl IntoIntegerish<i64> for F64Bits {
    open spec fn int_of(v: i64) -> int {
        v as int
    }

    open spec fn spec_try_into_integerish(&self) -> Result<int, ConversionError> {
        float_to_integerish(self.0 as nat, 52, 11, true, 63)
    }

    fn try_into_integerish(&self) -> Result<i64, ConversionError> {
        proof {
            lemma_f64_pattern(self.0);
            lemma_integer_bounds();
        }
        match convert_bits(self.0, 52, 11, true, 63, true) {
            Ok((neg, mag)) => Ok(value_signed(neg, mag) as i64),
            Err(e) => Err(e),
        }
    }
}

impl IntoIntegerish<u64> for F64Bits {
    open spec fn int_of(v: u64) -> int {
        v as int
    }

    open spec fn spec_try_into_integerish(&self) -> Result<int, ConversionError> {
        float_to_integerish(self.0 as nat, 52, 11, false, 64)
    }

    fn try_into_integerish(&self) -> Result<u64, ConversionError> {
        proof {
            lemma_f64_pattern(self.0);
            lemma_integer_bounds();
        }
        match convert_bits(self.0, 52, 11, false, 64, true) {
            Ok((neg, mag)) => Ok(mag as u64),
            Err(e) => Err(e),
        }
    }
}

impl IntoIntegerish<i32> for F64Bits {
    open spec fn int_of(v: i32) -> int {
        v as int
    }

    open spec fn spec_try_into_integerish(&self) -> Result<int, ConversionError> {
        float_to_integerish(self.0 as nat, 52, 11, true, 31)
    }

    fn try_into_integerish(&self) -> Result<i32, ConversionError> {
        proof {
            lemma_f64_pattern(self.0);
            lemma_integer_bounds();
        }
        match convert_bits(self.0, 52, 11, true, 31, true) {
            Ok((neg, mag)) => Ok(value_signed(neg, mag) as i32),
            Err(e) => Err(e),
        }
    }
}

impl IntoIntegerish<u32> for F64Bits {
    open spec fn int_of(v: u32) -> int {
        v as int
    }

    open spec fn spec_try_into_integerish(&self) -> Result<int, ConversionError> {
        float_to_integerish(self.0 as nat, 52, 11, false, 32)
    }

    fn try_into_integerish(&self) -> Result<u32, ConversionError> {
        proof {
            lemma_f64_pattern(self.0);
            lemma_integer_bounds();
        }
        match convert_bits(self.0, 52, 11, false, 32, true) {
            Ok((neg, mag)) => Ok(mag as u32),
            Err(e) => Err(e),
        }
    }
}

impl IntoIntegerish<i16> for F64Bits {
    open spec fn int_of(v: i16) -> int {
        v as int
    }

    open spec fn spec_try_into_integerish(&self) -> Result<int, ConversionError> {
        float_to_integerish(self.0 as nat, 52, 11, true, 15)
    }

    fn try_into_integerish(&self) -> Result<i16, ConversionError> {
        proof {
            lemma_f64_pattern(self.0);
            lemma_integer_bounds();
        }
        match convert_bits(self.0, 52, 11, true, 15, true) {
            Ok((neg, mag)) => Ok(value_signed(neg, mag) as i16),
            Err(e) => Err(e),
        }
    }
}

impl IntoIntegerish<u16> for F64Bits {
    open spec fn int_of(v: u16) -> int {
        v as int
    }

    open spec fn spec_try_into_integerish(&self) -> Result<int, ConversionError> {
        float_to_integerish(self.0 as nat, 52, 11, false, 16)
    }

    fn try_into_integerish(&self) -> Result<u16, ConversionError> {
        proof {
            lemma_f64_pattern(self.0);
            lemma_integer_bounds();
        }
        match convert_bits(self.0, 52, 11, false, 16, true) {
            Ok((neg, mag)) => Ok(mag as u16),
            Err(e) => Err(e),
        }
    }
}

impl IntoIntegerish<i8> for F64Bits {
    open spec fn int_of(v: i8) -> int {
        v as int
    }

    open spec fn spec_try_into_integerish(&self) -> Result<int, ConversionError> {
        float_to_integerish(self.0 as nat, 52, 11, true, 7)
    }

    fn try_into_integerish(&self) -> Result<i8, ConversionError> {
        proof {
            lemma_f64_pattern(self.0);
            lemma_integer_bounds();
        }
        match convert_bits(self.0, 52, 11, true, 7, true) {
            Ok((neg, mag)) => Ok(value_signed(neg, mag) as i8),
            Err(e) => Err(e),
        }
    }
}

impl IntoIntegerish<u8> for F64Bits {
    open spec fn int_of(v: u8) -> int {
        v as int
    }

    open spec fn spec_try_into_integerish(&self) -> Result<int, ConversionError> {
        float_to_integerish(self.0 as nat, 52, 11, false, 8)
    }

    fn try_into_integerish(&self) -> Result<u8, ConversionError> {
        proof {
            lemma_f64_pattern(self.0);
            lemma_integer_bounds();
        }
        match convert_bits(self.0, 52, 11, false, 8, true) {
            Ok((neg, mag)) => Ok(mag as u8),
            Err(e) => Err(e),
        }
    }
}

impl IntoIntegerish<i128> for F32Bits {
    open spec fn int_of(v: i128) -> int {
        v as int
    }

    open spec fn spec_try_into_integerish(&self) -> Result<int, ConversionError> {
        float_to_integerish(self.0 as nat, 23, 8, true, 127)
    }

    fn try_into_integerish(&self) -> Result<i128, ConversionError> {
        proof {
            lemma_f32_pattern(self.0);
            lemma_integer_bounds();
        }
        match convert_bits(self.0 as u64, 23, 8, true, 127, true) {
            Ok((neg, mag)) => Ok(value_signed(neg, mag) as i128),
            Err(e) => Err(e),
        }
    }
}

impl IntoIntegerish<u128> for F32Bits {
    open spec fn int_of(v: u128) -> int {
        v as int
    }

    open spec fn spec_try_into_integerish(&self) -> Result<int, ConversionError> {
        float_to_integerish(self.0 as nat, 23, 8, false, 128)
    }

    fn try_into_integerish(&self) -> Result<u128, ConversionError> {
        proof {
            lemma_f32_pattern(self.0);
            lemma_integer_bounds();
        }
        match convert_bits(self.0 as u64, 23, 8, false, 128, true) {
            Ok((neg, mag)) => Ok(mag as u128),
            Err(e) => Err(e),
        }
    }
}

impl IntoIntegerish<i64> for F32Bits {
    open spec fn int_of(v: i64) -> int {
        v as int
    }

    open spec fn spec_try_into_integerish(&self) -> Result<int, ConversionError> {
        float_to_integerish(self.0 as nat, 23, 8, true, 63)
    }

    fn try_into_integerish(&self) -> Result<i64, ConversionError> {
        proof {
            lemma_f32_pattern(self.0);
            lemma_integer_bounds();
        }
        match convert_bits(self.0 as u64, 23, 8, true, 63, true) {
            Ok((neg, mag)) => Ok(value_signed(neg, mag) as i64),
            Err(e) => Err(e),
        }
    }
}

impl IntoIntegerish<u64> for F32Bits {
    open spec fn int_of(v: u64) -> int {
        v as int
    }

    open spec fn spec_try_into_integerish(&self) -> Result<int, ConversionError> {
        float_to_integerish(self.0 as nat, 23, 8, false, 64)
    }

    fn try_into_integerish(&self) -> Result<u64, ConversionError> {
        proof {
            lemma_f32_pattern(self.0);
            lemma_integer_bounds();
        }
        match convert_bits(self.0 as u64, 23, 8, false, 64, true) {
            Ok((neg, mag)) => Ok(mag as u64),
            Err(e) => Err(e),
        }
    }
}

impl IntoIntegerish<i32> for F32Bits {
    open spec fn int_of(v: i32) -> int {
        v as int
    }

    open spec fn spec_try_into_integerish(&self) -> Result<int, ConversionError> {
        float_to_integerish(self.0 as nat, 23, 8, true, 31)
    }

    fn try_into_integerish(&self) -> Result<i32, ConversionError> {
        proof {
            lemma_f32_pattern(self.0);
            lemma_integer_bounds();
        }
        match convert_bits(self.0 as u64, 23, 8, true, 31, true) {
            Ok((neg, mag)) => Ok(value_signed(neg, mag) as i32),
            Err(e) => Err(e),
        }
    }
}

impl IntoIntegerish<u32> for F32Bits {
    open spec fn int_of(v: u32) -> int {
        v as int
    }

    open spec fn spec_try_into_integerish(&self) -> Result<int, ConversionError> {
        float_to_integerish(self.0 as nat, 23, 8, false, 32)
    }

    fn try_into_integerish(&self) -> Result<u32, ConversionError> {
        proof {
            lemma_f32_pattern(self.0);
            lemma_integer_bounds();
        }
        match convert_bits(self.0 as u64, 23, 8, false, 32, true) {
            Ok((neg, mag)) => Ok(mag as u32),
            Err(e) => Err(e),
        }
    }
}

impl IntoIntegerish<i16> for F32Bits {
    open spec fn int_of(v: i16) -> int {
        v as int
    }

    open spec fn spec_try_into_integerish(&self) -> Result<int, ConversionError> {
        float_to_integerish(self.0 as nat, 23, 8, true, 15)
    }

    fn try_into_integerish(&self) -> Result<i16, ConversionError> {
        proof {
            lemma_f32_pattern(self.0);
            lemma_integer_bounds();
        }
        match convert_bits(self.0 as u64, 23, 8, true, 15, true) {
            Ok((neg, mag)) => Ok(value_signed(neg, mag) as i16),
            Err(e) => Err(e),
        }
    }
}

impl IntoIntegerish<u16> for F32Bits {
    open spec fn int_of(v: u16) -> int {
        v as int
    }

    open spec fn spec_try_into_integerish(&self) -> Result<int, ConversionError> {
        float_to_integerish(self.0 as nat, 23, 8, false, 16)
    }

    fn try_into_integerish(&self) -> Result<u16, ConversionError> {
        proof {
            lemma_f32_pattern(self.0);
            lemma_integer_bounds();
        }
        match convert_bits(self.0 as u64, 23, 8, false, 16, true) {
            Ok((neg, mag)) => Ok(mag as u16),
            Err(e) => Err(e),
        }
    }
}

impl IntoIntegerish<i8> for F32Bits {
    open spec fn int_of(v: i8) -> int {
        v as int
    }

    open spec fn spec_try_into_integerish(&self) -> Result<int, ConversionError> {
        float_to_integerish(self.0 as nat, 23, 8, true, 7)
    }

    fn try_into_integerish(&self) -> Result<i8, ConversionError> {
        proof {
            lemma_f32_pattern(self.0);
            lemma_integer_bounds();
        }
        match convert_bits(self.0 as u64, 23, 8, true, 7, true) {
            Ok((neg, mag)) => Ok(value_signed(neg, mag) as i8),
            Err(e) => Err(e),
        }
    }
}

impl IntoIntegerish<u8> for F32Bits {
    open spec fn int_of(v: u8) -> int {
        v as int
    }

    open spec fn spec_try_into_integerish(&self) -> Result<int, ConversionError> {
        float_to_integerish(self.0 as nat, 23, 8, false, 8)
    }

    fn try_into_integerish(&self) -> Result<u8, ConversionError> {
        proof {
            lemma_f32_pattern(self.0);
            lemma_integer_bounds();
        }
        match convert_bits(self.0 as u64, 23, 8, false, 8, true) {
            Ok((neg, mag)) => Ok(mag as u8),
            Err(e) => Err(e),
        }
    }
}

/// Into `i128`: a double holding a whole number from `i128::MIN` to `i128::MAX`
/// converts to that number; a negative value of magnitude at least
/// `1 - i128::MIN` underflows, and a positive one of magnitude at least
/// `i128::MAX + 2` overflows.
pub proof fn lemma_f64_into_i128(b: F64Bits, v: int)
    ensures
        holds_whole(b.0 as nat, 52, 11, v) && i128::MIN <= v <= i128::MAX ==> <F64Bits as IntoIntegerish<i128>>::spec_try_into_integerish(&b) == Ok::<
            int,
            ConversionError,
        >(v),
        class_of(b.0 as nat, 52, 11) == FloatClass::Normal && sign_field(b.0 as nat, 52, 11)
            && magnitude_at_least(b.0 as nat, 52, 11, 1 - i128::MIN) ==> <F64Bits as IntoIntegerish<i128>>::spec_try_into_integerish(&b) == Err::<
            int,
            ConversionError,
        >(ConversionError::Underflow),
        class_of(b.0 as nat, 52, 11) == FloatClass::Normal && !sign_field(b.0 as nat, 52, 11)
            && magnitude_at_least(b.0 as nat, 52, 11, i128::MAX + 2) ==> <F64Bits as IntoIntegerish<i128>>::spec_try_into_integerish(&b) == Err::<
            int,
            ConversionError,
        >(ConversionError::Overflow),
{
    lemma_integer_bounds();
    if holds_whole(b.0 as nat, 52, 11, v) && i128::MIN <= v <= i128::MAX {
        lemma_whole_in_range(b.0 as nat, 52, 11, true, 127, v);
    }
    if class_of(b.0 as nat, 52, 11) == FloatClass::Normal {
        if sign_field(b.0 as nat, 52, 11) && magnitude_at_least(b.0 as nat, 52, 11, 1 - i128::MIN) {
            lemma_below_range(b.0 as nat, 52, 11, true, 127);
        }
        if !sign_field(b.0 as nat, 52, 11) && magnitude_at_least(b.0 as nat, 52, 11, i128::MAX + 2) {
            lemma_above_range(b.0 as nat, 52, 11, true, 127);
        }
    }
}

/// Into `u128`: a double holding a whole number from `u128::MIN` to `u128::MAX`
/// converts to that number; a negative value of magnitude at least
/// `1 - u128::MIN` underflows, and a positive one of magnitude at least
/// `u128::MAX + 2` overflows.
pub proof fn lemma_f64_into_u128(b: F64Bits, v: int)
    ensures
        holds_whole(b.0 as nat, 52, 11, v) && u128::MIN <= v <= u128::MAX ==> <F64Bits as IntoIntegerish<u128>>::spec_try_into_integerish(&b) == Ok::<
            int,
            ConversionError,
        >(v),
        class_of(b.0 as nat, 52, 11) == FloatClass::Normal && sign_field(b.0 as nat, 52, 11)
            && magnitude_at_least(b.0 as nat, 52, 11, 1 - u128::MIN) ==> <F64Bits as IntoIntegerish<u128>>::spec_try_into_integerish(&b) == Err::<
            int,
            ConversionError,
        >(ConversionError::Underflow),
        class_of(b.0 as nat, 52, 11) == FloatClass::Normal && !sign_field(b.0 as nat, 52, 11)
            && magnitude_at_least(b.0 as nat, 52, 11, u128::MAX + 2) ==> <F64Bits as IntoIntegerish<u128>>::spec_try_into_integerish(&b) == Err::<
            int,
            ConversionError,
        >(ConversionError::Overflow),
{
    lemma_integer_bounds();
    if holds_whole(b.0 as nat, 52, 11, v) && u128::MIN <= v <= u128::MAX {
        lemma_whole_in_range(b.0 as nat, 52, 11, false, 128, v);
    }
    if class_of(b.0 as nat, 52, 11) == FloatClass::Normal {
        if sign_field(b.0 as nat, 52, 11) && magnitude_at_least(b.0 as nat, 52, 11, 1 - u128::MIN) {
            lemma_below_range(b.0 as nat, 52, 11, false, 128);
        }
        if !sign_field(b.0 as nat, 52, 11) && magnitude_at_least(b.0 as nat, 52, 11, u128::MAX + 2) {
            lemma_above_range(b.0 as nat, 52, 11, false, 128);
        }
    }
}

/// Into `i64`: a double holding a whole number from `i64::MIN` to `i64::MAX`
/// converts to that number; a negative value of magnitude at least
/// `1 - i64::MIN` underflows, and a positive one of magnitude at least
/// `i64::MAX + 2` overflows.
pub proof fn lemma_f64_into_i64(b: F64Bits, v: int)
    ensures
        holds_whole(b.0 as nat, 52, 11, v) && i64::MIN <= v <= i64::MAX ==> <F64Bits as IntoIntegerish<i64>>::spec_try_into_integerish(&b) == Ok::<
            int,
            ConversionError,
        >(v),
        class_of(b.0 as nat, 52, 11) == FloatClass::Normal && sign_field(b.0 as nat, 52, 11)
            && magnitude_at_least(b.0 as nat, 52, 11, 1 - i64::MIN) ==> <F64Bits as IntoIntegerish<i64>>::spec_try_into_integerish(&b) == Err::<
            int,
            ConversionError,
        >(ConversionError::Underflow),
        class_of(b.0 as nat, 52, 11) == FloatClass::Normal && !sign_field(b.0 as nat, 52, 11)
            && magnitude_at_least(b.0 as nat, 52, 11, i64::MAX + 2) ==> <F64Bits as IntoIntegerish<i64>>::spec_try_into_integerish(&b) == Err::<
            int,
            ConversionError,
        >(ConversionError::Overflow),
{
    lemma_integer_bounds();
    if holds_whole(b.0 as nat, 52, 11, v) && i64::MIN <= v <= i64::MAX {
        lemma_whole_in_range(b.0 as nat, 52, 11, true, 63, v);
    }
    if class_of(b.0 as nat, 52, 11) == FloatClass::Normal {
        if sign_field(b.0 as nat, 52, 11) && magnitude_at_least(b.0 as nat, 52, 11, 1 - i64::MIN) {
            lemma_below_range(b.0 as nat, 52, 11, true, 63);
        }
        if !sign_field(b.0 as nat, 52, 11) && magnitude_at_least(b.0 as nat, 52, 11, i64::MAX + 2) {
            lemma_above_range(b.0 as nat, 52, 11, true, 63);
        }
    }
}

/// Into `u64`: a double holding a whole number from `u64::MIN` to `u64::MAX`
/// converts to that number; a negative value of magnitude at least
/// `1 - u64::MIN` underflows, and a positive one of magnitude at least
/// `u64::MAX + 2` overflows.
pub proof fn lemma_f64_into_u64(b: F64Bits, v: int)
    ensures
        holds_whole(b.0 as nat, 52, 11, v) && u64::MIN <= v <= u64::MAX ==> <F64Bits as IntoIntegerish<u64>>::spec_try_into_integerish(&b) == Ok::<
            int,
            ConversionError,
        >(v),
        class_of(b.0 as nat, 52, 11) == FloatClass::Normal && sign_field(b.0 as nat, 52, 11)
            && magnitude_at_least(b.0 as nat, 52, 11, 1 - u64::MIN) ==> <F64Bits as IntoIntegerish<u64>>::spec_try_into_integerish(&b) == Err::<
            int,
            ConversionError,
        >(ConversionError::Underflow),
        class_of(b.0 as nat, 52, 11) == FloatClass::Normal && !sign_field(b.0 as nat, 52, 11)
            && magnitude_at_least(b.0 as nat, 52, 11, u64::MAX + 2) ==> <F64Bits as IntoIntegerish<u64>>::spec_try_into_integerish(&b) == Err::<
            int,
            ConversionError,
        >(ConversionError::Overflow),
{
    lemma_integer_bounds();
    if holds_whole(b.0 as nat, 52, 11, v) && u64::MIN <= v <= u64::MAX {
        lemma_whole_in_range(b.0 as nat, 52, 11, false, 64, v);
    }
    if class_of(b.0 as nat, 52, 11) == FloatClass::Normal {
        if sign_field(b.0 as nat, 52, 11) && magnitude_at_least(b.0 as nat, 52, 11, 1 - u64::MIN) {
            lemma_below_range(b.0 as nat, 52, 11, false, 64);
        }
        if !sign_field(b.0 as nat, 52, 11) && magnitude_at_least(b.0 as nat, 52, 11, u64::MAX + 2) {
            lemma_above_range(b.0 as nat, 52, 11, false, 64);
        }
    }
}

/// Into `i32`: a double holding a whole number from `i32::MIN` to `i32::MAX`
/// converts to that number; a negative value of magnitude at least
/// `1 - i32::MIN` underflows, and a positive one of magnitude at least
/// `i32::MAX + 2` overflows.
pub proof fn lemma_f64_into_i32(b: F64Bits, v: int)
    ensures
        holds_whole(b.0 as nat, 52, 11, v) && i32::MIN <= v <= i32::MAX ==> <F64Bits as IntoIntegerish<i32>>::spec_try_into_integerish(&b) == Ok::<
            int,
            ConversionError,
        >(v),
        class_of(b.0 as nat, 52, 11) == FloatClass::Normal && sign_field(b.0 as nat, 52, 11)
            && magnitude_at_least(b.0 as nat, 52, 11, 1 - i32::MIN) ==> <F64Bits as IntoIntegerish<i32>>::spec_try_into_integerish(&b) == Err::<
            int,
            ConversionError,
        >(ConversionError::Underflow),
        class_of(b.0 as nat, 52, 11) == FloatClass::Normal && !sign_field(b.0 as nat, 52, 11)
            && magnitude_at_least(b.0 as nat, 52, 11, i32::MAX + 2) ==> <F64Bits as IntoIntegerish<i32>>::spec_try_into_integerish(&b) == Err::<
            int,
            ConversionError,
        >(ConversionError::Overflow),
{
    lemma_integer_bounds();
    if holds_whole(b.0 as nat, 52, 11, v) && i32::MIN <= v <= i32::MAX {
        lemma_whole_in_range(b.0 as nat, 52, 11, true, 31, v);
    }
    if class_of(b.0 as nat, 52, 11) == FloatClass::Normal {
        if sign_field(b.0 as nat, 52, 11) && magnitude_at_least(b.0 as nat, 52, 11, 1 - i32::MIN) {
            lemma_below_range(b.0 as nat, 52, 11, true, 31);
        }
        if !sign_field(b.0 as nat, 52, 11) && magnitude_at_least(b.0 as nat, 52, 11, i32::MAX + 2) {
            lemma_above_range(b.0 as nat, 52, 11, true, 31);
        }
    }
}

/// Into `u32`: a double holding a whole number from `u32::MIN` to `u32::MAX`
/// converts to that number; a negative value of magnitude at least
/// `1 - u32::MIN` underflows, and a positive one of magnitude at least
/// `u32::MAX + 2` overflows.
pub proof fn lemma_f64_into_u32(b: F64Bits, v: int)
    ensures
        holds_whole(b.0 as nat, 52, 11, v) && u32::MIN <= v <= u32::MAX ==> <F64Bits as IntoIntegerish<u32>>::spec_try_into_integerish(&b) == Ok::<
            int,
            ConversionError,
        >(v),
        class_of(b.0 as nat, 52, 11) == FloatClass::Normal && sign_field(b.0 as nat, 52, 11)
            && magnitude_at_least(b.0 as nat, 52, 11, 1 - u32::MIN) ==> <F64Bits as IntoIntegerish<u32>>::spec_try_into_integerish(&b) == Err::<
            int,
            ConversionError,
        >(ConversionError::Underflow),
        class_of(b.0 as nat, 52, 11) == FloatClass::Normal && !sign_field(b.0 as nat, 52, 11)
            && magnitude_at_least(b.0 as nat, 52, 11, u32::MAX + 2) ==> <F64Bits as IntoIntegerish<u32>>::spec_try_into_integerish(&b) == Err::<
            int,
            ConversionError,
        >(ConversionError::Overflow),
{
    lemma_integer_bounds();
    if holds_whole(b.0 as nat, 52, 11, v) && u32::MIN <= v <= u32::MAX {
        lemma_whole_in_range(b.0 as nat, 52, 11, false, 32, v);
    }
    if class_of(b.0 as nat, 52, 11) == FloatClass::Normal {
        if sign_field(b.0 as nat, 52, 11) && magnitude_at_least(b.0 as nat, 52, 11, 1 - u32::MIN) {
            lemma_below_range(b.0 as nat, 52, 11, false, 32);
        }
        if !sign_field(b.0 as nat, 52, 11) && magnitude_at_least(b.0 as nat, 52, 11, u32::MAX + 2) {
            lemma_above_range(b.0 as nat, 52, 11, false, 32);
        }
    }
}

/// Into `i16`: a double holding a whole number from `i16::MIN` to `i16::MAX`
/// converts to that number; a negative value of magnitude at least
/// `1 - i16::MIN` underflows, and a positive one of magnitude at least
/// `i16::MAX + 2` overflows.
pub proof fn lemma_f64_into_i16(b: F64Bits, v: int)
    ensures
        holds_whole(b.0 as nat, 52, 11, v) && i16::MIN <= v <= i16::MAX ==> <F64Bits as IntoIntegerish<i16>>::spec_try_into_integerish(&b) == Ok::<
            int,
            ConversionError,
        >(v),
        class_of(b.0 as nat, 52, 11) == FloatClass::Normal && sign_field(b.0 as nat, 52, 11)
            && magnitude_at_least(b.0 as nat, 52, 11, 1 - i16::MIN) ==> <F64Bits as IntoIntegerish<i16>>::spec_try_into_integerish(&b) == Err::<
            int,
            ConversionError,
        >(ConversionError::Underflow),
        class_of(b.0 as nat, 52, 11) == FloatClass::Normal && !sign_field(b.0 as nat, 52, 11)
            && magnitude_at_least(b.0 as nat, 52, 11, i16::MAX + 2) ==> <F64Bits as IntoIntegerish<i16>>::spec_try_into_integerish(&b) == Err::<
            int,
            ConversionError,
        >(ConversionError::Overflow),
{
    lemma_integer_bounds();
    if holds_whole(b.0 as nat, 52, 11, v) && i16::MIN <= v <= i16::MAX {
        lemma_whole_in_range(b.0 as nat, 52, 11, true, 15, v);
    }
    if class_of(b.0 as nat, 52, 11) == FloatClass::Normal {
        if sign_field(b.0 as nat, 52, 11) && magnitude_at_least(b.0 as nat, 52, 11, 1 - i16::MIN) {
            lemma_below_range(b.0 as nat, 52, 11, true, 15);
        }
        if !sign_field(b.0 as nat, 52, 11) && magnitude_at_least(b.0 as nat, 52, 11, i16::MAX + 2) {
            lemma_above_range(b.0 as nat, 52, 11, true, 15);
        }
    }
}

/// Into `u16`: a double holding a whole number from `u16::MIN` to `u16::MAX`
/// converts to that number; a negative value of magnitude at least
/// `1 - u16::MIN` underflows, and a positive one of magnitude at least
/// `u16::MAX + 2` overflows.
pub proof fn lemma_f64_into_u16(b: F64Bits, v: int)
    ensures
        holds_whole(b.0 as nat, 52, 11, v) && u16::MIN <= v <= u16::MAX ==> <F64Bits as IntoIntegerish<u16>>::spec_try_into_integerish(&b) == Ok::<
            int,
            ConversionError,
        >(v),
        class_of(b.0 as nat, 52, 11) == FloatClass::Normal && sign_field(b.0 as nat, 52, 11)
            && magnitude_at_least(b.0 as nat, 52, 11, 1 - u16::MIN) ==> <F64Bits as IntoIntegerish<u16>>::spec_try_into_integerish(&b) == Err::<
            int,
            ConversionError,
        >(ConversionError::Underflow),
        class_of(b.0 as nat, 52, 11) == FloatClass::Normal && !sign_field(b.0 as nat, 52, 11)
            && magnitude_at_least(b.0 as nat, 52, 11, u16::MAX + 2) ==> <F64Bits as IntoIntegerish<u16>>::spec_try_into_integerish(&b) == Err::<
            int,
            ConversionError,
        >(ConversionError::Overflow),
{
    lemma_integer_bounds();
    if holds_whole(b.0 as nat, 52, 11, v) && u16::MIN <= v <= u16::MAX {
        lemma_whole_in_range(b.0 as nat, 52, 11, false, 16, v);
    }
    if class_of(b.0 as nat, 52, 11) == FloatClass::Normal {
        if sign_field(b.0 as nat, 52, 11) && magnitude_at_least(b.0 as nat, 52, 11, 1 - u16::MIN) {
            lemma_below_range(b.0 as nat, 52, 11, false, 16);
        }
        if !sign_field(b.0 as nat, 52, 11) && magnitude_at_least(b.0 as nat, 52, 11, u16::MAX + 2) {
            lemma_above_range(b.0 as nat, 52, 11, false, 16);
        }
    }
}

/// Into `i8`: a double holding a whole number from `i8::MIN` to `i8::MAX`
/// converts to that number; a negative value of magnitude at least
/// `1 - i8::MIN` underflows, and a positive one of magnitude at least
/// `i8::MAX + 2` overflows.
pub proof fn lemma_f64_into_i8(b: F64Bits, v: int)
    ensures
        holds_whole(b.0 as nat, 52, 11, v) && i8::MIN <= v <= i8::MAX ==> <F64Bits as IntoIntegerish<i8>>::spec_try_into_integerish(&b) == Ok::<
            int,
            ConversionError,
        >(v),
        class_of(b.0 as nat, 52, 11) == FloatClass::Normal && sign_field(b.0 as nat, 52, 11)
            && magnitude_at_least(b.0 as nat, 52, 11, 1 - i8::MIN) ==> <F64Bits as IntoIntegerish<i8>>::spec_try_into_integerish(&b) == Err::<
            int,
            ConversionError,
        >(ConversionError::Underflow),
        class_of(b.0 as nat, 52, 11) == FloatClass::Normal && !sign_field(b.0 as nat, 52, 11)
            && magnitude_at_least(b.0 as nat, 52, 11, i8::MAX + 2) ==> <F64Bits as IntoIntegerish<i8>>::spec_try_into_integerish(&b) == Err::<
            int,
            ConversionError,
        >(ConversionError::Overflow),
{
    lemma_integer_bounds();
    if holds_whole(b.0 as nat, 52, 11, v) && i8::MIN <= v <= i8::MAX {
        lemma_whole_in_range(b.0 as nat, 52, 11, true, 7, v);
    }
    if class_of(b.0 as nat, 52, 11) == FloatClass::Normal {
        if sign_field(b.0 as nat, 52, 11) && magnitude_at_least(b.0 as nat, 52, 11, 1 - i8::MIN) {
            lemma_below_range(b.0 as nat, 52, 11, true, 7);
        }
        if !sign_field(b.0 as nat, 52, 11) && magnitude_at_least(b.0 as nat, 52, 11, i8::MAX + 2) {
            lemma_above_range(b.0 as nat, 52, 11, true, 7);
        }
    }
}

/// Into `u8`: a double holding a whole number from `u8::MIN` to `u8::MAX`
/// converts to that number; a negative value of magnitude at least
/// `1 - u8::MIN` underflows, and a positive one of magnitude at least
/// `u8::MAX + 2` overflows.
pub proof fn lemma_f64_into_u8(b: F64Bits, v: int)
    ensures
        holds_whole(b.0 as nat, 52, 11, v) && u8::MIN <= v <= u8::MAX ==> <F64Bits as IntoIntegerish<u8>>::spec_try_into_integerish(&b) == Ok::<
            int,
            ConversionError,
        >(v),
        class_of(b.0 as nat, 52, 11) == FloatClass::Normal && sign_field(b.0 as nat, 52, 11)
            && magnitude_at_least(b.0 as nat, 52, 11, 1 - u8::MIN) ==> <F64Bits as IntoIntegerish<u8>>::spec_try_into_integerish(&b) == Err::<
            int,
            ConversionError,
        >(ConversionError::Underflow),
        class_of(b.0 as nat, 52, 11) == FloatClass::Normal && !sign_field(b.0 as nat, 52, 11)
            && magnitude_at_least(b.0 as nat, 52, 11, u8::MAX + 2) ==> <F64Bits as IntoIntegerish<u8>>::spec_try_into_integerish(&b) == Err::<
            int,
            ConversionError,
        >(ConversionError::Overflow),
{
    lemma_integer_bounds();
    if holds_whole(b.0 as nat, 52, 11, v) && u8::MIN <= v <= u8::MAX {
        lemma_whole_in_range(b.0 as nat, 52, 11, false, 8, v);
    }
    if class_of(b.0 as nat, 52, 11) == FloatClass::Normal {
        if sign_field(b.0 as nat, 52, 11) && magnitude_at_least(b.0 as nat, 52, 11, 1 - u8::MIN) {
            lemma_below_range(b.0 as nat, 52, 11, false, 8);
        }
        if !sign_field(b.0 as nat, 52, 11) && magnitude_at_least(b.0 as nat, 52, 11, u8::MAX + 2) {
            lemma_above_range(b.0 as nat, 52, 11, false, 8);
        }
    }
}

/// Into `i128`: a `f32` holding a whole number from `i128::MIN` to `i128::MAX`
/// converts to that number; a negative value of magnitude at least
/// `1 - i128::MIN` underflows, and a positive one of magnitude at least
/// `i128::MAX + 2` overflows.
pub proof fn lemma_f32_into_i128(b: F32Bits, v: int)
    ensures
        holds_whole(b.0 as nat, 23, 8, v) && i128::MIN <= v <= i128::MAX ==> <F32Bits as IntoIntegerish<i128>>::spec_try_into_integerish(&b) == Ok::<
            int,
            ConversionError,
        >(v),
        class_of(b.0 as nat, 23, 8) == FloatClass::Normal && sign_field(b.0 as nat, 23, 8)
            && magnitude_at_least(b.0 as nat, 23, 8, 1 - i128::MIN) ==> <F32Bits as IntoIntegerish<i128>>::spec_try_into_integerish(&b) == Err::<
            int,
            ConversionError,
        >(ConversionError::Underflow),
        class_of(b.0 as nat, 23, 8) == FloatClass::Normal && !sign_field(b.0 as nat, 23, 8)
            && magnitude_at_least(b.0 as nat, 23, 8, i128::MAX + 2) ==> <F32Bits as IntoIntegerish<i128>>::spec_try_into_integerish(&b) == Err::<
            int,
            ConversionError,
        >(ConversionError::Overflow),
{
    lemma_integer_bounds();
    if holds_whole(b.0 as nat, 23, 8, v) && i128::MIN <= v <= i128::MAX {
        lemma_whole_in_range(b.0 as nat, 23, 8, true, 127, v);
    }
    if class_of(b.0 as nat, 23, 8) == FloatClass::Normal {
        if sign_field(b.0 as nat, 23, 8) && magnitude_at_least(b.0 as nat, 23, 8, 1 - i128::MIN) {
            lemma_below_range(b.0 as nat, 23, 8, true, 127);
        }
        if !sign_field(b.0 as nat, 23, 8) && magnitude_at_least(b.0 as nat, 23, 8, i128::MAX + 2) {
            lemma_above_range(b.0 as nat, 23, 8, true, 127);
        }
    }
}

/// Into `u128`: a `f32` holding a whole number from `u128::MIN` to `u128::MAX`
/// converts to that number; a negative value of magnitude at least
/// `1 - u128::MIN` underflows, and a positive one of magnitude at least
/// `u128::MAX + 2` overflows.
pub proof fn lemma_f32_into_u128(b: F32Bits, v: int)
    ensures
        holds_whole(b.0 as nat, 23, 8, v) && u128::MIN <= v <= u128::MAX ==> <F32Bits as IntoIntegerish<u128>>::spec_try_into_integerish(&b) == Ok::<
            int,
            ConversionError,
        >(v),
        class_of(b.0 as nat, 23, 8) == FloatClass::Normal && sign_field(b.0 as nat, 23, 8)
            && magnitude_at_least(b.0 as nat, 23, 8, 1 - u128::MIN) ==> <F32Bits as IntoIntegerish<u128>>::spec_try_into_integerish(&b) == Err::<
            int,
            ConversionError,
        >(ConversionError::Underflow),
        class_of(b.0 as nat, 23, 8) == FloatClass::Normal && !sign_field(b.0 as nat, 23, 8)
            && magnitude_at_least(b.0 as nat, 23, 8, u128::MAX + 2) ==> <F32Bits as IntoIntegerish<u128>>::spec_try_into_integerish(&b) == Err::<
            int,
            ConversionError,
        >(ConversionError::Overflow),
{
    lemma_integer_bounds();
    if holds_whole(b.0 as nat, 23, 8, v) && u128::MIN <= v <= u128::MAX {
        lemma_whole_in_range(b.0 as nat, 23, 8, false, 128, v);
    }
    if class_of(b.0 as nat, 23, 8) == FloatClass::Normal {
        if sign_field(b.0 as nat, 23, 8) && magnitude_at_least(b.0 as nat, 23, 8, 1 - u128::MIN) {
            lemma_below_range(b.0 as nat, 23, 8, false, 128);
        }
        if !sign_field(b.0 as nat, 23, 8) && magnitude_at_least(b.0 as nat, 23, 8, u128::MAX + 2) {
            lemma_above_range(b.0 as nat, 23, 8, false, 128);
        }
    }
}

/// Into `i64`: a `f32` holding a whole number from `i64::MIN` to `i64::MAX`
/// converts to that number; a negative value of magnitude at least
/// `1 - i64::MIN` underflows, and a positive one of magnitude at least
/// `i64::MAX + 2` overflows.
pub proof fn lemma_f32_into_i64(b: F32Bits, v: int)
    ensures
        holds_whole(b.0 as nat, 23, 8, v) && i64::MIN <= v <= i64::MAX ==> <F32Bits as IntoIntegerish<i64>>::spec_try_into_integerish(&b) == Ok::<
            int,
            ConversionError,
        >(v),
        class_of(b.0 as nat, 23, 8) == FloatClass::Normal && sign_field(b.0 as nat, 23, 8)
            && magnitude_at_least(b.0 as nat, 23, 8, 1 - i64::MIN) ==> <F32Bits as IntoIntegerish<i64>>::spec_try_into_integerish(&b) == Err::<
            int,
            ConversionError,
        >(ConversionError::Underflow),
        class_of(b.0 as nat, 23, 8) == FloatClass::Normal && !sign_field(b.0 as nat, 23, 8)
            && magnitude_at_least(b.0 as nat, 23, 8, i64::MAX + 2) ==> <F32Bits as IntoIntegerish<i64>>::spec_try_into_integerish(&b) == Err::<
            int,
            ConversionError,
        >(ConversionError::Overflow),
{
    lemma_integer_bounds();
    if holds_whole(b.0 as nat, 23, 8, v) && i64::MIN <= v <= i64::MAX {
        lemma_whole_in_range(b.0 as nat, 23, 8, true, 63, v);
    }
    if class_of(b.0 as nat, 23, 8) == FloatClass::Normal {
        if sign_field(b.0 as nat, 23, 8) && magnitude_at_least(b.0 as nat, 23, 8, 1 - i64::MIN) {
            lemma_below_range(b.0 as nat, 23, 8, true, 63);
        }
        if !sign_field(b.0 as nat, 23, 8) && magnitude_at_least(b.0 as nat, 23, 8, i64::MAX + 2) {
            lemma_above_range(b.0 as nat, 23, 8, true, 63);
        }
    }
}

/// Into `u64`: a `f32` holding a whole number from `u64::MIN` to `u64::MAX`
/// converts to that number; a negative value of magnitude at least
/// `1 - u64::MIN` underflows, and a positive one of magnitude at least
/// `u64::MAX + 2` overflows.
pub proof fn lemma_f32_into_u64(b: F32Bits, v: int)
    ensures
        holds_whole(b.0 as nat, 23, 8, v) && u64::MIN <= v <= u64::MAX ==> <F32Bits as IntoIntegerish<u64>>::spec_try_into_integerish(&b) == Ok::<
            int,
            ConversionError,
        >(v),
        class_of(b.0 as nat, 23, 8) == FloatClass::Normal && sign_field(b.0 as nat, 23, 8)
            && magnitude_at_least(b.0 as nat, 23, 8, 1 - u64::MIN) ==> <F32Bits as IntoIntegerish<u64>>::spec_try_into_integerish(&b) == Err::<
            int,
            ConversionError,
        >(ConversionError::Underflow),
        class_of(b.0 as nat, 23, 8) == FloatClass::Normal && !sign_field(b.0 as nat, 23, 8)
            && magnitude_at_least(b.0 as nat, 23, 8, u64::MAX + 2) ==> <F32Bits as IntoIntegerish<u64>>::spec_try_into_integerish(&b) == Err::<
            int,
            ConversionError,
        >(ConversionError::Overflow),
{
    lemma_integer_bounds();
    if holds_whole(b.0 as nat, 23, 8, v) && u64::MIN <= v <= u64::MAX {
        lemma_whole_in_range(b.0 as nat, 23, 8, false, 64, v);
    }
    if class_of(b.0 as nat, 23, 8) == FloatClass::Normal {
        if sign_field(b.0 as nat, 23, 8) && magnitude_at_least(b.0 as nat, 23, 8, 1 - u64::MIN) {
            lemma_below_range(b.0 as nat, 23, 8, false, 64);
        }
        if !sign_field(b.0 as nat, 23, 8) && magnitude_at_least(b.0 as nat, 23, 8, u64::MAX + 2) {
            lemma_above_range(b.0 as nat, 23, 8, false, 64);
        }
    }
}

/// Into `i32`: a `f32` holding a whole number from `i32::MIN` to `i32::MAX`
/// converts to that number; a negative value of magnitude at least
/// `1 - i32::MIN` underflows, and a positive one of magnitude at least
/// `i32::MAX + 2` overflows.
pub proof fn lemma_f32_into_i32(b: F32Bits, v: int)
    ensures
        holds_whole(b.0 as nat, 23, 8, v) && i32::MIN <= v <= i32::MAX ==> <F32Bits as IntoIntegerish<i32>>::spec_try_into_integerish(&b) == Ok::<
            int,
            ConversionError,
        >(v),
        class_of(b.0 as nat, 23, 8) == FloatClass::Normal && sign_field(b.0 as nat, 23, 8)
            && magnitude_at_least(b.0 as nat, 23, 8, 1 - i32::MIN) ==> <F32Bits as IntoIntegerish<i32>>::spec_try_into_integerish(&b) == Err::<
            int,
            ConversionError,
        >(ConversionError::Underflow),
        class_of(b.0 as nat, 23, 8) == FloatClass::Normal && !sign_field(b.0 as nat, 23, 8)
            && magnitude_at_least(b.0 as nat, 23, 8, i32::MAX + 2) ==> <F32Bits as IntoIntegerish<i32>>::spec_try_into_integerish(&b) == Err::<
            int,
            ConversionError,
        >(ConversionError::Overflow),
{
    lemma_integer_bounds();
    if holds_whole(b.0 as nat, 23, 8, v) && i32::MIN <= v <= i32::MAX {
        lemma_whole_in_range(b.0 as nat, 23, 8, true, 31, v);
    }
    if class_of(b.0 as nat, 23, 8) == FloatClass::Normal {
        if sign_field(b.0 as nat, 23, 8) && magnitude_at_least(b.0 as nat, 23, 8, 1 - i32::MIN) {
            lemma_below_range(b.0 as nat, 23, 8, true, 31);
        }
        if !sign_field(b.0 as nat, 23, 8) && magnitude_at_least(b.0 as nat, 23, 8, i32::MAX + 2) {
            lemma_above_range(b.0 as nat, 23, 8, true, 31);
        }
    }
}

/// Into `u32`: a `f32` holding a whole number from `u32::MIN` to `u32::MAX`
/// converts to that number; a negative value of magnitude at least
/// `1 - u32::MIN` underflows, and a positive one of magnitude at least
/// `u32::MAX + 2` overflows.
pub proof fn lemma_f32_into_u32(b: F32Bits, v: int)
    ensures
        holds_whole(b.0 as nat, 23, 8, v) && u32::MIN <= v <= u32::MAX ==> <F32Bits as IntoIntegerish<u32>>::spec_try_into_integerish(&b) == Ok::<
            int,
            ConversionError,
        >(v),
        class_of(b.0 as nat, 23, 8) == FloatClass::Normal && sign_field(b.0 as nat, 23, 8)
            && magnitude_at_least(b.0 as nat, 23, 8, 1 - u32::MIN) ==> <F32Bits as IntoIntegerish<u32>>::spec_try_into_integerish(&b) == Err::<
            int,
            ConversionError,
        >(ConversionError::Underflow),
        class_of(b.0 as nat, 23, 8) == FloatClass::Normal && !sign_field(b.0 as nat, 23, 8)
            && magnitude_at_least(b.0 as nat, 23, 8, u32::MAX + 2) ==> <F32Bits as IntoIntegerish<u32>>::spec_try_into_integerish(&b) == Err::<
            int,
            ConversionError,
        >(ConversionError::Overflow),
{
    lemma_integer_bounds();
    if holds_whole(b.0 as nat, 23, 8, v) && u32::MIN <= v <= u32::MAX {
        lemma_whole_in_range(b.0 as nat, 23, 8, false, 32, v);
    }
    if class_of(b.0 as nat, 23, 8) == FloatClass::Normal {
        if sign_field(b.0 as nat, 23, 8) && magnitude_at_least(b.0 as nat, 23, 8, 1 - u32::MIN) {
            lemma_below_range(b.0 as nat, 23, 8, false, 32);
        }
        if !sign_field(b.0 as nat, 23, 8) && magnitude_at_least(b.0 as nat, 23, 8, u32::MAX + 2) {
            lemma_above_range(b.0 as nat, 23, 8, false, 32);
        }
    }
}

/// Into `i16`: a `f32` holding a whole number from `i16::MIN` to `i16::MAX`
/// converts to that number; a negative value of magnitude at least
/// `1 - i16::MIN` underflows, and a positive one of magnitude at least
/// `i16::MAX + 2` overflows.
pub proof fn lemma_f32_into_i16(b: F32Bits, v: int)
    ensures
        holds_whole(b.0 as nat, 23, 8, v) && i16::MIN <= v <= i16::MAX ==> <F32Bits as IntoIntegerish<i16>>::spec_try_into_integerish(&b) == Ok::<
            int,
            ConversionError,
        >(v),
        class_of(b.0 as nat, 23, 8) == FloatClass::Normal && sign_field(b.0 as nat, 23, 8)
            && magnitude_at_least(b.0 as nat, 23, 8, 1 - i16::MIN) ==> <F32Bits as IntoIntegerish<i16>>::spec_try_into_integerish(&b) == Err::<
            int,
            ConversionError,
        >(ConversionError::Underflow),
        class_of(b.0 as nat, 23, 8) == FloatClass::Normal && !sign_field(b.0 as nat, 23, 8)
            && magnitude_at_least(b.0 as nat, 23, 8, i16::MAX + 2) ==> <F32Bits as IntoIntegerish<i16>>::spec_try_into_integerish(&b) == Err::<
            int,
            ConversionError,
        >(ConversionError::Overflow),
{
    lemma_integer_bounds();
    if holds_whole(b.0 as nat, 23, 8, v) && i16::MIN <= v <= i16::MAX {
        lemma_whole_in_range(b.0 as nat, 23, 8, true, 15, v);
    }
    if class_of(b.0 as nat, 23, 8) == FloatClass::Normal {
        if sign_field(b.0 as nat, 23, 8) && magnitude_at_least(b.0 as nat, 23, 8, 1 - i16::MIN) {
            lemma_below_range(b.0 as nat, 23, 8, true, 15);
        }
        if !sign_field(b.0 as nat, 23, 8) && magnitude_at_least(b.0 as nat, 23, 8, i16::MAX + 2) {
            lemma_above_range(b.0 as nat, 23, 8, true, 15);
        }
    }
}

/// Into `u16`: a `f32` holding a whole number from `u16::MIN` to `u16::MAX`
/// converts to that number; a negative value of magnitude at least
/// `1 - u16::MIN` underflows, and a positive one of magnitude at least
/// `u16::MAX + 2` overflows.
pub proof fn lemma_f32_into_u16(b: F32Bits, v: int)
    ensures
        holds_whole(b.0 as nat, 23, 8, v) && u16::MIN <= v <= u16::MAX ==> <F32Bits as IntoIntegerish<u16>>::spec_try_into_integerish(&b) == Ok::<
            int,
            ConversionError,
        >(v),
        class_of(b.0 as nat, 23, 8) == FloatClass::Normal && sign_field(b.0 as nat, 23, 8)
            && magnitude_at_least(b.0 as nat, 23, 8, 1 - u16::MIN) ==> <F32Bits as IntoIntegerish<u16>>::spec_try_into_integerish(&b) == Err::<
            int,
            ConversionError,
        >(ConversionError::Underflow),
        class_of(b.0 as nat, 23, 8) == FloatClass::Normal && !sign_field(b.0 as nat, 23, 8)
            && magnitude_at_least(b.0 as nat, 23, 8, u16::MAX + 2) ==> <F32Bits as IntoIntegerish<u16>>::spec_try_into_integerish(&b) == Err::<
            int,
            ConversionError,
        >(ConversionError::Overflow),
{
    lemma_integer_bounds();
    if holds_whole(b.0 as nat, 23, 8, v) && u16::MIN <= v <= u16::MAX {
        lemma_whole_in_range(b.0 as nat, 23, 8, false, 16, v);
    }
    if class_of(b.0 as nat, 23, 8) == FloatClass::Normal {
        if sign_field(b.0 as nat, 23, 8) && magnitude_at_least(b.0 as nat, 23, 8, 1 - u16::MIN) {
            lemma_below_range(b.0 as nat, 23, 8, false, 16);
        }
        if !sign_field(b.0 as nat, 23, 8) && magnitude_at_least(b.0 as nat, 23, 8, u16::MAX + 2) {
            lemma_above_range(b.0 as nat, 23, 8, false, 16);
        }
    }
}

/// Into `i8`: a `f32` holding a whole number from `i8::MIN` to `i8::MAX`
/// converts to that number; a negative value of magnitude at least
/// `1 - i8::MIN` underflows, and a positive one of magnitude at least
/// `i8::MAX + 2` overflows.
pub proof fn lemma_f32_into_i8(b: F32Bits, v: int)
    ensures
        holds_whole(b.0 as nat, 23, 8, v) && i8::MIN <= v <= i8::MAX ==> <F32Bits as IntoIntegerish<i8>>::spec_try_into_integerish(&b) == Ok::<
            int,
            ConversionError,
        >(v),
        class_of(b.0 as nat, 23, 8) == FloatClass::Normal && sign_field(b.0 as nat, 23, 8)
            && magnitude_at_least(b.0 as nat, 23, 8, 1 - i8::MIN) ==> <F32Bits as IntoIntegerish<i8>>::spec_try_into_integerish(&b) == Err::<
            int,
            ConversionError,
        >(ConversionError::Underflow),
        class_of(b.0 as nat, 23, 8) == FloatClass::Normal && !sign_field(b.0 as nat, 23, 8)
            && magnitude_at_least(b.0 as nat, 23, 8, i8::MAX + 2) ==> <F32Bits as IntoIntegerish<i8>>::spec_try_into_integerish(&b) == Err::<
            int,
            ConversionError,
        >(ConversionError::Overflow),
{
    lemma_integer_bounds();
    if holds_whole(b.0 as nat, 23, 8, v) && i8::MIN <= v <= i8::MAX {
        lemma_whole_in_range(b.0 as nat, 23, 8, true, 7, v);
    }
    if class_of(b.0 as nat, 23, 8) == FloatClass::Normal {
        if sign_field(b.0 as nat, 23, 8) && magnitude_at_least(b.0 as nat, 23, 8, 1 - i8::MIN) {
            lemma_below_range(b.0 as nat, 23, 8, true, 7);
        }
        if !sign_field(b.0 as nat, 23, 8) && magnitude_at_least(b.0 as nat, 23, 8, i8::MAX + 2) {
            lemma_above_range(b.0 as nat, 23, 8, true, 7);
        }
    }
}

/// Into `u8`: a `f32` holding a whole number from `u8::MIN` to `u8::MAX`
/// converts to that number; a negative value of magnitude at least
/// `1 - u8::MIN` underflows, and a positive one of magnitude at least
/// `u8::MAX + 2` overflows.
pub proof fn lemma_f32_into_u8(b: F32Bits, v: int)
    ensures
        holds_whole(b.0 as nat, 23, 8, v) && u8::MIN <= v <= u8::MAX ==> <F32Bits as IntoIntegerish<u8>>::spec_try_into_integerish(&b) == Ok::<
            int,
            ConversionError,
        >(v),
        class_of(b.0 as nat, 23, 8) == FloatClass::Normal && sign_field(b.0 as nat, 23, 8)
            && magnitude_at_least(b.0 as nat, 23, 8, 1 - u8::MIN) ==> <F32Bits as IntoIntegerish<u8>>::spec_try_into_integerish(&b) == Err::<
            int,
            ConversionError,
        >(ConversionError::Underflow),
        class_of(b.0 as nat, 23, 8) == FloatClass::Normal && !sign_field(b.0 as nat, 23, 8)
            && magnitude_at_least(b.0 as nat, 23, 8, u8::MAX + 2) ==> <F32Bits as IntoIntegerish<u8>>::spec_try_into_integerish(&b) == Err::<
            int,
            ConversionError,
        >(ConversionError::Overflow),
{
    lemma_integer_bounds();
    if holds_whole(b.0 as nat, 23, 8, v) && u8::MIN <= v <= u8::MAX {
        lemma_whole_in_range(b.0 as nat, 23, 8, false, 8, v);
    }
    if class_of(b.0 as nat, 23, 8) == FloatClass::Normal {
        if sign_field(b.0 as nat, 23, 8) && magnitude_at_least(b.0 as nat, 23, 8, 1 - u8::MIN) {
            lemma_below_range(b.0 as nat, 23, 8, false, 8);
        }
        if !sign_field(b.0 as nat, 23, 8) && magnitude_at_least(b.0 as nat, 23, 8, u8::MAX + 2) {
            lemma_above_range(b.0 as nat, 23, 8, false, 8);
        }
    }
}


} // verus!
