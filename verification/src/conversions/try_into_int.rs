//! Conversion of doubles into integers of every width, failing on values
//! that are out of range or not whole numbers.
use vstd::prelude::*;
use crate::conversions::ieee::{
    class_of, holds_whole, lemma_above_range, lemma_below_range, lemma_whole_in_range,
    magnitude_at_least, sign_field, FloatClass,
    convert_bits, float_to_int, lemma_f64_pattern, lemma_integer_bounds, value_signed,
};
pub use crate::conversions::ieee::ConversionError;

verus! {

/// An R double (`f64`), held as its IEEE-754 bit pattern (`f64::to_bits`).
#[derive(Debug, Clone, Copy, PartialEq, Eq, Structural)]
pub struct F64Bits(pub u64);

/// Conversion of a float into the integer type `T`.
///
/// Zeros give 0; infinities overflow or underflow; NaNs (NA included) and
/// subnormals are not whole numbers. A normal value is truncated toward
/// zero and compared with the bounds of `T` (as the float type rounds them):
/// below the minimum it underflows, above the maximum it overflows, and
/// otherwise it must equal its truncation. A value that equals the rounded
/// maximum but lies above the true maximum gives the maximum.
pub trait FloatToInt<T: Sized> {
    /// The integer that a value of `T` holds.
    spec fn int_of(v: T) -> int;

    /// The outcome that the conversion of `self` is specified to have.
    spec fn spec_try_into_int(&self) -> Result<int, ConversionError>;

    fn try_into_int(&self) -> (r: Result<T, ConversionError>)
        ensures
            match r {
                Ok(v) => self.spec_try_into_int() == Ok::<int, ConversionError>(Self::int_of(v)),
                Err(e) => self.spec_try_into_int() == Err::<int, ConversionError>(e),
            },
    ;
}

impl FloatToInt<isize> for F64Bits {
    open spec fn int_of(v: isize) -> int {
        v as int
    }

    open spec fn spec_try_into_int(&self) -> Result<int, ConversionError> {
        float_to_int(self.0 as nat, 52, 11, true, (usize::BITS - 1) as nat)
    }

    fn try_into_int(&self) -> Result<isize, ConversionError> {
        proof {
            lemma_f64_pattern(self.0);
            lemma_integer_bounds();
        }
        match convert_bits(self.0, 52, 11, true, (usize::BITS - 1) as u64, false) {
            Ok((neg, mag)) => Ok(value_signed(neg, mag) as isize),
            Err(e) => Err(e),
        }
    }
}

impl FloatToInt<usize> for F64Bits {
    open spec fn int_of(v: usize) -> int {
        v as int
    }

    open spec fn spec_try_into_int(&self) -> Result<int, ConversionError> {
        float_to_int(self.0 as nat, 52, 11, false, usize::BITS as nat)
    }

    fn try_into_int(&self) -> Result<usize, ConversionError> {
        proof {
            lemma_f64_pattern(self.0);
            lemma_integer_bounds();
        }
        match convert_bits(self.0, 52, 11, false, usize::BITS as u64, false) {
            Ok((neg, mag)) => Ok(mag as usize),
            Err(e) => Err(e),
        }
    }
}

impl FloatToInt<i128> for F64Bits {
    open spec fn int_of(v: i128) -> int {
        v as int
    }

    open spec fn spec_try_into_int(&self) -> Result<int, ConversionError> {
        float_to_int(self.0 as nat, 52, 11, true, 127)
    }

    fn try_into_int(&self) -> Result<i128, ConversionError> {
        proof {
            lemma_f64_pattern(self.0);
            lemma_integer_bounds();
        }
        match convert_bits(self.0, 52, 11, true, 127, false) {
            Ok((neg, mag)) => Ok(value_signed(neg, mag) as i128),
            Err(e) => Err(e),
        }
    }
}

impl FloatToInt<u128> for F64Bits {
    open spec fn int_of(v: u128) -> int {
        v as int
    }

    open spec fn spec_try_into_int(&self) -> Result<int, ConversionError> {
        float_to_int(self.0 as nat, 52, 11, false, 128)
    }

    fn try_into_int(&self) -> Result<u128, ConversionError> {
        proof {
            lemma_f64_pattern(self.0);
            lemma_integer_bounds();
        }
        match convert_bits(self.0, 52, 11, false, 128, false) {
            Ok((neg, mag)) => Ok(mag as u128),
            Err(e) => Err(e),
        }
    }
}

impl FloatToInt<i64> for F64Bits {
    open spec fn int_of(v: i64) -> int {
        v as int
    }

    open spec fn spec_try_into_int(&self) -> Result<int, ConversionError> {
        float_to_int(self.0 as nat, 52, 11, true, 63)
    }

    fn try_into_int(&self) -> Result<i64, ConversionError> {
        proof {
            lemma_f64_pattern(self.0);
            lemma_integer_bounds();
        }
        match convert_bits(self.0, 52, 11, true, 63, false) {
            Ok((neg, mag)) => Ok(value_signed(neg, mag) as i64),
            Err(e) => Err(e),
        }
    }
}

impl FloatToInt<u64> for F64Bits {
    open spec fn int_of(v: u64) -> int {
        v as int
    }

    open spec fn spec_try_into_int(&self) -> Result<int, ConversionError> {
        float_to_int(self.0 as nat, 52, 11, false, 64)
    }

    fn try_into_int(&self) -> Result<u64, ConversionError> {
        proof {
            lemma_f64_pattern(self.0);
            lemma_integer_bounds();
        }
        match convert_bits(self.0, 52, 11, false, 64, false) {
            Ok((neg, mag)) => Ok(mag as u64),
            Err(e) => Err(e),
        }
    }
}

impl FloatToInt<i32> for F64Bits {
    open spec fn int_of(v: i32) -> int {
        v as int
    }

    open spec fn spec_try_into_int(&self) -> Result<int, ConversionError> {
        float_to_int(self.0 as nat, 52, 11, true, 31)
    }

    fn try_into_int(&self) -> Result<i32, ConversionError> {
        proof {
            lemma_f64_pattern(self.0);
            lemma_integer_bounds();
        }
        match convert_bits(self.0, 52, 11, true, 31, false) {
            Ok((neg, mag)) => Ok(value_signed(neg, mag) as i32),
            Err(e) => Err(e),
        }
    }
}

impl FloatToInt<u32> for F64Bits {
    open spec fn int_of(v: u32) -> int {
        v as int
    }

    open spec fn spec_try_into_int(&self) -> Result<int, ConversionError> {
        float_to_int(self.0 as nat, 52, 11, false, 32)
    }

    fn try_into_int(&self) -> Result<u32, ConversionError> {
        proof {
            lemma_f64_pattern(self.0);
            lemma_integer_bounds();
        }
        match convert_bits(self.0, 52, 11, false, 32, false) {
            Ok((neg, mag)) => Ok(mag as u32),
            Err(e) => Err(e),
        }
    }
}

impl FloatToInt<i16> for F64Bits {
    open spec fn int_of(v: i16) -> int {
        v as int
    }

    open spec fn spec_try_into_int(&self) -> Result<int, ConversionError> {
        float_to_int(self.0 as nat, 52, 11, true, 15)
    }

    fn try_into_int(&self) -> Result<i16, ConversionError> {
        proof {
            lemma_f64_pattern(self.0);
            lemma_integer_bounds();
        }
        match convert_bits(self.0, 52, 11, true, 15, false) {
            Ok((neg, mag)) => Ok(value_signed(neg, mag) as i16),
            Err(e) => Err(e),
        }
    }
}

impl FloatToInt<u16> for F64Bits {
    open spec fn int_of(v: u16) -> int {
        v as int
    }

    open spec fn spec_try_into_int(&self) -> Result<int, ConversionError> {
        float_to_int(self.0 as nat, 52, 11, false, 16)
    }

    fn try_into_int(&self) -> Result<u16, ConversionError> {
        proof {
            lemma_f64_pattern(self.0);
            lemma_integer_bounds();
        }
        match convert_bits(self.0, 52, 11, false, 16, false) {
            Ok((neg, mag)) => Ok(mag as u16),
            Err(e) => Err(e),
        }
    }
}

impl FloatToInt<i8> for F64Bits {
    open spec fn int_of(v: i8) -> int {
        v as int
    }

    open spec fn spec_try_into_int(&self) -> Result<int, ConversionError> {
        float_to_int(self.0 as nat, 52, 11, true, 7)
    }

    fn try_into_int(&self) -> Result<i8, ConversionError> {
        proof {
            lemma_f64_pattern(self.0);
            lemma_integer_bounds();
        }
        match convert_bits(self.0, 52, 11, true, 7, false) {
            Ok((neg, mag)) => Ok(value_signed(neg, mag) as i8),
            Err(e) => Err(e),
        }
    }
}

impl FloatToInt<u8> for F64Bits {
    open spec fn int_of(v: u8) -> int {
        v as int
    }

    open spec fn spec_try_into_int(&self) -> Result<int, ConversionError> {
        float_to_int(self.0 as nat, 52, 11, false, 8)
    }

    fn try_into_int(&self) -> Result<u8, ConversionError> {
        proof {
            lemma_f64_pattern(self.0);
            lemma_integer_bounds();
        }
        match convert_bits(self.0, 52, 11, false, 8, false) {
            Ok((neg, mag)) => Ok(mag as u8),
            Err(e) => Err(e),
        }
    }
}

/// Into `isize`: a double holding a whole number from `isize::MIN` to `isize::MAX`
/// converts to that number; zero converts to 0; a negative value of magnitude at least
/// `1 - isize::MIN` underflows, and a positive one of magnitude at least
/// `isize::MAX + 2` overflows.
pub proof fn lemma_f64_into_isize(b: F64Bits, v: int)
    ensures
        holds_whole(b.0 as nat, 52, 11, v) && isize::MIN <= v <= isize::MAX ==> <F64Bits as FloatToInt<isize>>::spec_try_into_int(&b) == Ok::<
            int,
            ConversionError,
        >(v),
        class_of(b.0 as nat, 52, 11) == FloatClass::Zero ==> <F64Bits as FloatToInt<isize>>::spec_try_into_int(&b) == Ok::<int, ConversionError>(0),
        class_of(b.0 as nat, 52, 11) == FloatClass::Normal && sign_field(b.0 as nat, 52, 11)
            && magnitude_at_least(b.0 as nat, 52, 11, 1 - isize::MIN) ==> <F64Bits as FloatToInt<isize>>::spec_try_into_int(&b) == Err::<
            int,
            ConversionError,
        >(ConversionError::Underflow),
        class_of(b.0 as nat, 52, 11) == FloatClass::Normal && !sign_field(b.0 as nat, 52, 11)
            && magnitude_at_least(b.0 as nat, 52, 11, isize::MAX + 2) ==> <F64Bits as FloatToInt<isize>>::spec_try_into_int(&b) == Err::<
            int,
            ConversionError,
        >(ConversionError::Overflow),
{
    lemma_integer_bounds();
    if holds_whole(b.0 as nat, 52, 11, v) && isize::MIN <= v <= isize::MAX {
        lemma_whole_in_range(b.0 as nat, 52, 11, true, (usize::BITS - 1) as nat, v);
    }
    if class_of(b.0 as nat, 52, 11) == FloatClass::Normal {
        if sign_field(b.0 as nat, 52, 11) && magnitude_at_least(b.0 as nat, 52, 11, 1 - isize::MIN) {
            lemma_below_range(b.0 as nat, 52, 11, true, (usize::BITS - 1) as nat);
        }
        if !sign_field(b.0 as nat, 52, 11) && magnitude_at_least(b.0 as nat, 52, 11, isize::MAX + 2) {
            lemma_above_range(b.0 as nat, 52, 11, true, (usize::BITS - 1) as nat);
        }
    }
}

/// Into `usize`: a double holding a whole number from `usize::MIN` to `usize::MAX`
/// converts to that number; zero converts to 0; a negative value of magnitude at least
/// `1 - usize::MIN` underflows, and a positive one of magnitude at least
/// `usize::MAX + 2` overflows.
pub proof fn lemma_f64_into_usize(b: F64Bits, v: int)
    ensures
        holds_whole(b.0 as nat, 52, 11, v) && usize::MIN <= v <= usize::MAX ==> <F64Bits as FloatToInt<usize>>::spec_try_into_int(&b) == Ok::<
            int,
            ConversionError,
        >(v),
        class_of(b.0 as nat, 52, 11) == FloatClass::Zero ==> <F64Bits as FloatToInt<usize>>::spec_try_into_int(&b) == Ok::<int, ConversionError>(0),
        class_of(b.0 as nat, 52, 11) == FloatClass::Normal && sign_field(b.0 as nat, 52, 11)
            && magnitude_at_least(b.0 as nat, 52, 11, 1 - usize::MIN) ==> <F64Bits as FloatToInt<usize>>::spec_try_into_int(&b) == Err::<
            int,
            ConversionError,
        >(ConversionError::Underflow),
        class_of(b.0 as nat, 52, 11) == FloatClass::Normal && !sign_field(b.0 as nat, 52, 11)
            && magnitude_at_least(b.0 as nat, 52, 11, usize::MAX + 2) ==> <F64Bits as FloatToInt<usize>>::spec_try_into_int(&b) == Err::<
            int,
            ConversionError,
        >(ConversionError::Overflow),
{
    lemma_integer_bounds();
    if holds_whole(b.0 as nat, 52, 11, v) && usize::MIN <= v <= usize::MAX {
        lemma_whole_in_range(b.0 as nat, 52, 11, false, usize::BITS as nat, v);
    }
    if class_of(b.0 as nat, 52, 11) == FloatClass::Normal {
        if sign_field(b.0 as nat, 52, 11) && magnitude_at_least(b.0 as nat, 52, 11, 1 - usize::MIN) {
            lemma_below_range(b.0 as nat, 52, 11, false, usize::BITS as nat);
        }
        if !sign_field(b.0 as nat, 52, 11) && magnitude_at_least(b.0 as nat, 52, 11, usize::MAX + 2) {
            lemma_above_range(b.0 as nat, 52, 11, false, usize::BITS as nat);
        }
    }
}

/// Into `i128`: a double holding a whole number from `i128::MIN` to `i128::MAX`
/// converts to that number; zero converts to 0; a negative value of magnitude at least
/// `1 - i128::MIN` underflows, and a positive one of magnitude at least
/// `i128::MAX + 2` overflows.
pub proof fn lemma_f64_into_i128(b: F64Bits, v: int)
    ensures
        holds_whole(b.0 as nat, 52, 11, v) && i128::MIN <= v <= i128::MAX ==> <F64Bits as FloatToInt<i128>>::spec_try_into_int(&b) == Ok::<
            int,
            ConversionError,
        >(v),
        class_of(b.0 as nat, 52, 11) == FloatClass::Zero ==> <F64Bits as FloatToInt<i128>>::spec_try_into_int(&b) == Ok::<int, ConversionError>(0),
        class_of(b.0 as nat, 52, 11) == FloatClass::Normal && sign_field(b.0 as nat, 52, 11)
            && magnitude_at_least(b.0 as nat, 52, 11, 1 - i128::MIN) ==> <F64Bits as FloatToInt<i128>>::spec_try_into_int(&b) == Err::<
            int,
            ConversionError,
        >(ConversionError::Underflow),
        class_of(b.0 as nat, 52, 11) == FloatClass::Normal && !sign_field(b.0 as nat, 52, 11)
            && magnitude_at_least(b.0 as nat, 52, 11, i128::MAX + 2) ==> <F64Bits as FloatToInt<i128>>::spec_try_into_int(&b) == Err::<
            int,
            ConversionError,
        >(ConversionError::Overflow),
{
    lemma_integer_bounds();
    if holds_whole(b.0 as nat, 52, 11, v) && i128::MIN <= v <= i128::MAX {
        lemma_whole_in_range(b.0 as nat, 52, 11, true, 127, v);
    }
    if class_of(b.0 as nat, 52, 11) == FloatClass::Normal {
        if sign_field(b.0 as nat, 52, 11) && magnitude_at_least(b.0 as nat, 52, 11, 1 - i128::MIN) {
            lemma_below_range(b.0 as nat, 52, 11, true, 127);
        }
        if !sign_field(b.0 as nat, 52, 11) && magnitude_at_least(b.0 as nat, 52, 11, i128::MAX + 2) {
            lemma_above_range(b.0 as nat, 52, 11, true, 127);
        }
    }
}

/// Into `u128`: a double holding a whole number from `u128::MIN` to `u128::MAX`
/// converts to that number; zero converts to 0; a negative value of magnitude at least
/// `1 - u128::MIN` underflows, and a positive one of magnitude at least
/// `u128::MAX + 2` overflows.
pub proof fn lemma_f64_into_u128(b: F64Bits, v: int)
    ensures
        holds_whole(b.0 as nat, 52, 11, v) && u128::MIN <= v <= u128::MAX ==> <F64Bits as FloatToInt<u128>>::spec_try_into_int(&b) == Ok::<
            int,
            ConversionError,
        >(v),
        class_of(b.0 as nat, 52, 11) == FloatClass::Zero ==> <F64Bits as FloatToInt<u128>>::spec_try_into_int(&b) == Ok::<int, ConversionError>(0),
        class_of(b.0 as nat, 52, 11) == FloatClass::Normal && sign_field(b.0 as nat, 52, 11)
            && magnitude_at_least(b.0 as nat, 52, 11, 1 - u128::MIN) ==> <F64Bits as FloatToInt<u128>>::spec_try_into_int(&b) == Err::<
            int,
            ConversionError,
        >(ConversionError::Underflow),
        class_of(b.0 as nat, 52, 11) == FloatClass::Normal && !sign_field(b.0 as nat, 52, 11)
            && magnitude_at_least(b.0 as nat, 52, 11, u128::MAX + 2) ==> <F64Bits as FloatToInt<u128>>::spec_try_into_int(&b) == Err::<
            int,
            ConversionError,
        >(ConversionError::Overflow),
{
    lemma_integer_bounds();
    if holds_whole(b.0 as nat, 52, 11, v) && u128::MIN <= v <= u128::MAX {
        lemma_whole_in_range(b.0 as nat, 52, 11, false, 128, v);
    }
    if class_of(b.0 as nat, 52, 11) == FloatClass::Normal {
        if sign_field(b.0 as nat, 52, 11) && magnitude_at_least(b.0 as nat, 52, 11, 1 - u128::MIN) {
            lemma_below_range(b.0 as nat, 52, 11, false, 128);
        }
        if !sign_field(b.0 as nat, 52, 11) && magnitude_at_least(b.0 as nat, 52, 11, u128::MAX + 2) {
            lemma_above_range(b.0 as nat, 52, 11, false, 128);
        }
    }
}

/// Into `i64`: a double holding a whole number from `i64::MIN` to `i64::MAX`
/// converts to that number; zero converts to 0; a negative value of magnitude at least
/// `1 - i64::MIN` underflows, and a positive one of magnitude at least
/// `i64::MAX + 2` overflows.
pub proof fn lemma_f64_into_i64(b: F64Bits, v: int)
    ensures
        holds_whole(b.0 as nat, 52, 11, v) && i64::MIN <= v <= i64::MAX ==> <F64Bits as FloatToInt<i64>>::spec_try_into_int(&b) == Ok::<
            int,
            ConversionError,
        >(v),
        class_of(b.0 as nat, 52, 11) == FloatClass::Zero ==> <F64Bits as FloatToInt<i64>>::spec_try_into_int(&b) == Ok::<int, ConversionError>(0),
        class_of(b.0 as nat, 52, 11) == FloatClass::Normal && sign_field(b.0 as nat, 52, 11)
            && magnitude_at_least(b.0 as nat, 52, 11, 1 - i64::MIN) ==> <F64Bits as FloatToInt<i64>>::spec_try_into_int(&b) == Err::<
            int,
            ConversionError,
        >(ConversionError::Underflow),
        class_of(b.0 as nat, 52, 11) == FloatClass::Normal && !sign_field(b.0 as nat, 52, 11)
            && magnitude_at_least(b.0 as nat, 52, 11, i64::MAX + 2) ==> <F64Bits as FloatToInt<i64>>::spec_try_into_int(&b) == Err::<
            int,
            ConversionError,
        >(ConversionError::Overflow),
{
    lemma_integer_bounds();
    if holds_whole(b.0 as nat, 52, 11, v) && i64::MIN <= v <= i64::MAX {
        lemma_whole_in_range(b.0 as nat, 52, 11, true, 63, v);
    }
    if class_of(b.0 as nat, 52, 11) == FloatClass::Normal {
        if sign_field(b.0 as nat, 52, 11) && magnitude_at_least(b.0 as nat, 52, 11, 1 - i64::MIN) {
            lemma_below_range(b.0 as nat, 52, 11, true, 63);
        }
        if !sign_field(b.0 as nat, 52, 11) && magnitude_at_least(b.0 as nat, 52, 11, i64::MAX + 2) {
            lemma_above_range(b.0 as nat, 52, 11, true, 63);
        }
    }
}

/// Into `u64`: a double holding a whole number from `u64::MIN` to `u64::MAX`
/// converts to that number; zero converts to 0; a negative value of magnitude at least
/// `1 - u64::MIN` underflows, and a positive one of magnitude at least
/// `u64::MAX + 2` overflows.
pub proof fn lemma_f64_into_u64(b: F64Bits, v: int)
    ensures
        holds_whole(b.0 as nat, 52, 11, v) && u64::MIN <= v <= u64::MAX ==> <F64Bits as FloatToInt<u64>>::spec_try_into_int(&b) == Ok::<
            int,
            ConversionError,
        >(v),
        class_of(b.0 as nat, 52, 11) == FloatClass::Zero ==> <F64Bits as FloatToInt<u64>>::spec_try_into_int(&b) == Ok::<int, ConversionError>(0),
        class_of(b.0 as nat, 52, 11) == FloatClass::Normal && sign_field(b.0 as nat, 52, 11)
            && magnitude_at_least(b.0 as nat, 52, 11, 1 - u64::MIN) ==> <F64Bits as FloatToInt<u64>>::spec_try_into_int(&b) == Err::<
            int,
            ConversionError,
        >(ConversionError::Underflow),
        class_of(b.0 as nat, 52, 11) == FloatClass::Normal && !sign_field(b.0 as nat, 52, 11)
            && magnitude_at_least(b.0 as nat, 52, 11, u64::MAX + 2) ==> <F64Bits as FloatToInt<u64>>::spec_try_into_int(&b) == Err::<
            int,
            ConversionError,
        >(ConversionError::Overflow),
{
    lemma_integer_bounds();
    if holds_whole(b.0 as nat, 52, 11, v) && u64::MIN <= v <= u64::MAX {
        lemma_whole_in_range(b.0 as nat, 52, 11, false, 64, v);
    }
    if class_of(b.0 as nat, 52, 11) == FloatClass::Normal {
        if sign_field(b.0 as nat, 52, 11) && magnitude_at_least(b.0 as nat, 52, 11, 1 - u64::MIN) {
            lemma_below_range(b.0 as nat, 52, 11, false, 64);
        }
        if !sign_field(b.0 as nat, 52, 11) && magnitude_at_least(b.0 as nat, 52, 11, u64::MAX + 2) {
            lemma_above_range(b.0 as nat, 52, 11, false, 64);
        }
    }
}

/// Into `i32`: a double holding a whole number from `i32::MIN` to `i32::MAX`
/// converts to that number; zero converts to 0; a negative value of magnitude at least
/// `1 - i32::MIN` underflows, and a positive one of magnitude at least
/// `i32::MAX + 2` overflows.
pub proof fn lemma_f64_into_i32(b: F64Bits, v: int)
    ensures
        holds_whole(b.0 as nat, 52, 11, v) && i32::MIN <= v <= i32::MAX ==> <F64Bits as FloatToInt<i32>>::spec_try_into_int(&b) == Ok::<
            int,
            ConversionError,
        >(v),
        class_of(b.0 as nat, 52, 11) == FloatClass::Zero ==> <F64Bits as FloatToInt<i32>>::spec_try_into_int(&b) == Ok::<int, ConversionError>(0),
        class_of(b.0 as nat, 52, 11) == FloatClass::Normal && sign_field(b.0 as nat, 52, 11)
            && magnitude_at_least(b.0 as nat, 52, 11, 1 - i32::MIN) ==> <F64Bits as FloatToInt<i32>>::spec_try_into_int(&b) == Err::<
            int,
            ConversionError,
        >(ConversionError::Underflow),
        class_of(b.0 as nat, 52, 11) == FloatClass::Normal && !sign_field(b.0 as nat, 52, 11)
            && magnitude_at_least(b.0 as nat, 52, 11, i32::MAX + 2) ==> <F64Bits as FloatToInt<i32>>::spec_try_into_int(&b) == Err::<
            int,
            ConversionError,
        >(ConversionError::Overflow),
{
    lemma_integer_bounds();
    if holds_whole(b.0 as nat, 52, 11, v) && i32::MIN <= v <= i32::MAX {
        lemma_whole_in_range(b.0 as nat, 52, 11, true, 31, v);
    }
    if class_of(b.0 as nat, 52, 11) == FloatClass::Normal {
        if sign_field(b.0 as nat, 52, 11) && magnitude_at_least(b.0 as nat, 52, 11, 1 - i32::MIN) {
            lemma_below_range(b.0 as nat, 52, 11, true, 31);
        }
        if !sign_field(b.0 as nat, 52, 11) && magnitude_at_least(b.0 as nat, 52, 11, i32::MAX + 2) {
            lemma_above_range(b.0 as nat, 52, 11, true, 31);
        }
    }
}

/// Into `u32`: a double holding a whole number from `u32::MIN` to `u32::MAX`
/// converts to that number; zero converts to 0; a negative value of magnitude at least
/// `1 - u32::MIN` underflows, and a positive one of magnitude at least
/// `u32::MAX + 2` overflows.
pub proof fn lemma_f64_into_u32(b: F64Bits, v: int)
    ensures
        holds_whole(b.0 as nat, 52, 11, v) && u32::MIN <= v <= u32::MAX ==> <F64Bits as FloatToInt<u32>>::spec_try_into_int(&b) == Ok::<
            int,
            ConversionError,
        >(v),
        class_of(b.0 as nat, 52, 11) == FloatClass::Zero ==> <F64Bits as FloatToInt<u32>>::spec_try_into_int(&b) == Ok::<int, ConversionError>(0),
        class_of(b.0 as nat, 52, 11) == FloatClass::Normal && sign_field(b.0 as nat, 52, 11)
            && magnitude_at_least(b.0 as nat, 52, 11, 1 - u32::MIN) ==> <F64Bits as FloatToInt<u32>>::spec_try_into_int(&b) == Err::<
            int,
            ConversionError,
        >(ConversionError::Underflow),
        class_of(b.0 as nat, 52, 11) == FloatClass::Normal && !sign_field(b.0 as nat, 52, 11)
            && magnitude_at_least(b.0 as nat, 52, 11, u32::MAX + 2) ==> <F64Bits as FloatToInt<u32>>::spec_try_into_int(&b) == Err::<
            int,
            ConversionError,
        >(ConversionError::Overflow),
{
    lemma_integer_bounds();
    if holds_whole(b.0 as nat, 52, 11, v) && u32::MIN <= v <= u32::MAX {
        lemma_whole_in_range(b.0 as nat, 52, 11, false, 32, v);
    }
    if class_of(b.0 as nat, 52, 11) == FloatClass::Normal {
        if sign_field(b.0 as nat, 52, 11) && magnitude_at_least(b.0 as nat, 52, 11, 1 - u32::MIN) {
            lemma_below_range(b.0 as nat, 52, 11, false, 32);
        }
        if !sign_field(b.0 as nat, 52, 11) && magnitude_at_least(b.0 as nat, 52, 11, u32::MAX + 2) {
            lemma_above_range(b.0 as nat, 52, 11, false, 32);
        }
    }
}

/// Into `i16`: a double holding a whole number from `i16::MIN` to `i16::MAX`
/// converts to that number; zero converts to 0; a negative value of magnitude at least
/// `1 - i16::MIN` underflows, and a positive one of magnitude at least
/// `i16::MAX + 2` overflows.
pub proof fn lemma_f64_into_i16(b: F64Bits, v: int)
    ensures
        holds_whole(b.0 as nat, 52, 11, v) && i16::MIN <= v <= i16::MAX ==> <F64Bits as FloatToInt<i16>>::spec_try_into_int(&b) == Ok::<
            int,
            ConversionError,
        >(v),
        class_of(b.0 as nat, 52, 11) == FloatClass::Zero ==> <F64Bits as FloatToInt<i16>>::spec_try_into_int(&b) == Ok::<int, ConversionError>(0),
        class_of(b.0 as nat, 52, 11) == FloatClass::Normal && sign_field(b.0 as nat, 52, 11)
            && magnitude_at_least(b.0 as nat, 52, 11, 1 - i16::MIN) ==> <F64Bits as FloatToInt<i16>>::spec_try_into_int(&b) == Err::<
            int,
            ConversionError,
        >(ConversionError::Underflow),
        class_of(b.0 as nat, 52, 11) == FloatClass::Normal && !sign_field(b.0 as nat, 52, 11)
            && magnitude_at_least(b.0 as nat, 52, 11, i16::MAX + 2) ==> <F64Bits as FloatToInt<i16>>::spec_try_into_int(&b) == Err::<
            int,
            ConversionError,
        >(ConversionError::Overflow),
{
    lemma_integer_bounds();
    if holds_whole(b.0 as nat, 52, 11, v) && i16::MIN <= v <= i16::MAX {
        lemma_whole_in_range(b.0 as nat, 52, 11, true, 15, v);
    }
    if class_of(b.0 as nat, 52, 11) == FloatClass::Normal {
        if sign_field(b.0 as nat, 52, 11) && magnitude_at_least(b.0 as nat, 52, 11, 1 - i16::MIN) {
            lemma_below_range(b.0 as nat, 52, 11, true, 15);
        }
        if !sign_field(b.0 as nat, 52, 11) && magnitude_at_least(b.0 as nat, 52, 11, i16::MAX + 2) {
            lemma_above_range(b.0 as nat, 52, 11, true, 15);
        }
    }
}

/// Into `u16`: a double holding a whole number from `u16::MIN` to `u16::MAX`
/// converts to that number; zero converts to 0; a negative value of magnitude at least
/// `1 - u16::MIN` underflows, and a positive one of magnitude at least
/// `u16::MAX + 2` overflows.
pub proof fn lemma_f64_into_u16(b: F64Bits, v: int)
    ensures
        holds_whole(b.0 as nat, 52, 11, v) && u16::MIN <= v <= u16::MAX ==> <F64Bits as FloatToInt<u16>>::spec_try_into_int(&b) == Ok::<
            int,
            ConversionError,
        >(v),
        class_of(b.0 as nat, 52, 11) == FloatClass::Zero ==> <F64Bits as FloatToInt<u16>>::spec_try_into_int(&b) == Ok::<int, ConversionError>(0),
        class_of(b.0 as nat, 52, 11) == FloatClass::Normal && sign_field(b.0 as nat, 52, 11)
            && magnitude_at_least(b.0 as nat, 52, 11, 1 - u16::MIN) ==> <F64Bits as FloatToInt<u16>>::spec_try_into_int(&b) == Err::<
            int,
            ConversionError,
        >(ConversionError::Underflow),
        class_of(b.0 as nat, 52, 11) == FloatClass::Normal && !sign_field(b.0 as nat, 52, 11)
            && magnitude_at_least(b.0 as nat, 52, 11, u16::MAX + 2) ==> <F64Bits as FloatToInt<u16>>::spec_try_into_int(&b) == Err::<
            int,
            ConversionError,
        >(ConversionError::Overflow),
{
    lemma_integer_bounds();
    if holds_whole(b.0 as nat, 52, 11, v) && u16::MIN <= v <= u16::MAX {
        lemma_whole_in_range(b.0 as nat, 52, 11, false, 16, v);
    }
    if class_of(b.0 as nat, 52, 11) == FloatClass::Normal {
        if sign_field(b.0 as nat, 52, 11) && magnitude_at_least(b.0 as nat, 52, 11, 1 - u16::MIN) {
            lemma_below_range(b.0 as nat, 52, 11, false, 16);
        }
        if !sign_field(b.0 as nat, 52, 11) && magnitude_at_least(b.0 as nat, 52, 11, u16::MAX + 2) {
            lemma_above_range(b.0 as nat, 52, 11, false, 16);
        }
    }
}

/// Into `i8`: a double holding a whole number from `i8::MIN` to `i8::MAX`
/// converts to that number; zero converts to 0; a negative value of magnitude at least
/// `1 - i8::MIN` underflows, and a positive one of magnitude at least
/// `i8::MAX + 2` overflows.
pub proof fn lemma_f64_into_i8(b: F64Bits, v: int)
    ensures
        holds_whole(b.0 as nat, 52, 11, v) && i8::MIN <= v <= i8::MAX ==> <F64Bits as FloatToInt<i8>>::spec_try_into_int(&b) == Ok::<
            int,
            ConversionError,
        >(v),
        class_of(b.0 as nat, 52, 11) == FloatClass::Zero ==> <F64Bits as FloatToInt<i8>>::spec_try_into_int(&b) == Ok::<int, ConversionError>(0),
        class_of(b.0 as nat, 52, 11) == FloatClass::Normal && sign_field(b.0 as nat, 52, 11)
            && magnitude_at_least(b.0 as nat, 52, 11, 1 - i8::MIN) ==> <F64Bits as FloatToInt<i8>>::spec_try_into_int(&b) == Err::<
            int,
            ConversionError,
        >(ConversionError::Underflow),
        class_of(b.0 as nat, 52, 11) == FloatClass::Normal && !sign_field(b.0 as nat, 52, 11)
            && magnitude_at_least(b.0 as nat, 52, 11, i8::MAX + 2) ==> <F64Bits as FloatToInt<i8>>::spec_try_into_int(&b) == Err::<
            int,
            ConversionError,
        >(ConversionError::Overflow),
{
    lemma_integer_bounds();
    if holds_whole(b.0 as nat, 52, 11, v) && i8::MIN <= v <= i8::MAX {
        lemma_whole_in_range(b.0 as nat, 52, 11, true, 7, v);
    }
    if class_of(b.0 as nat, 52, 11) == FloatClass::Normal {
        if sign_field(b.0 as nat, 52, 11) && magnitude_at_least(b.0 as nat, 52, 11, 1 - i8::MIN) {
            lemma_below_range(b.0 as nat, 52, 11, true, 7);
        }
        if !sign_field(b.0 as nat, 52, 11) && magnitude_at_least(b.0 as nat, 52, 11, i8::MAX + 2) {
            lemma_above_range(b.0 as nat, 52, 11, true, 7);
        }
    }
}

/// Into `u8`: a double holding a whole number from `u8::MIN` to `u8::MAX`
/// converts to that number; zero converts to 0; a negative value of magnitude at least
/// `1 - u8::MIN` underflows, and a positive one of magnitude at least
/// `u8::MAX + 2` overflows.
pub proof fn lemma_f64_into_u8(b: F64Bits, v: int)
    ensures
        holds_whole(b.0 as nat, 52, 11, v) && u8::MIN <= v <= u8::MAX ==> <F64Bits as FloatToInt<u8>>::spec_try_into_int(&b) == Ok::<
            int,
            ConversionError,
        >(v),
        class_of(b.0 as nat, 52, 11) == FloatClass::Zero ==> <F64Bits as FloatToInt<u8>>::spec_try_into_int(&b) == Ok::<int, ConversionError>(0),
        class_of(b.0 as nat, 52, 11) == FloatClass::Normal && sign_field(b.0 as nat, 52, 11)
            && magnitude_at_least(b.0 as nat, 52, 11, 1 - u8::MIN) ==> <F64Bits as FloatToInt<u8>>::spec_try_into_int(&b) == Err::<
            int,
            ConversionError,
        >(ConversionError::Underflow),
        class_of(b.0 as nat, 52, 11) == FloatClass::Normal && !sign_field(b.0 as nat, 52, 11)
            && magnitude_at_least(b.0 as nat, 52, 11, u8::MAX + 2) ==> <F64Bits as FloatToInt<u8>>::spec_try_into_int(&b) == Err::<
            int,
            ConversionError,
        >(ConversionError::Overflow),
{
    lemma_integer_bounds();
    if holds_whole(b.0 as nat, 52, 11, v) && u8::MIN <= v <= u8::MAX {
        lemma_whole_in_range(b.0 as nat, 52, 11, false, 8, v);
    }
    if class_of(b.0 as nat, 52, 11) == FloatClass::Normal {
        if sign_field(b.0 as nat, 52, 11) && magnitude_at_least(b.0 as nat, 52, 11, 1 - u8::MIN) {
            lemma_below_range(b.0 as nat, 52, 11, false, 8);
        }
        if !sign_field(b.0 as nat, 52, 11) && magnitude_at_least(b.0 as nat, 52, 11, u8::MAX + 2) {
            lemma_above_range(b.0 as nat, 52, 11, false, 8);
        }
    }
}


} // verus!
