//! R's missing values (`NA`) of the primitive types.
use vstd::prelude::*;
use vstd::arithmetic::power2::{pow2, lemma2_to64, lemma2_to64_rest};
use crate::conversions::ieee::{class_of, FloatClass};
use crate::conversions::try_into_int::F64Bits;

verus! {

/// The `NA` of R's integers.
pub const NA_INTEGER: i32 = i32::MIN;

/// The bit pattern of R's `NA_real_`: a NaN whose low word is 1954.
pub const NA_REAL_BITS: u64 = 0x7FF0_0000_0000_07A2;

/// Types with a value that R reads as `NA`.
pub trait CanBeNA: Sized {
    /// Whether a value is `NA`.
    spec fn spec_is_na(&self) -> bool;

    /// The `NA` value.
    spec fn spec_na() -> Self;

    fn is_na(&self) -> (b: bool)
        ensures
            b == self.spec_is_na(),
    ;

    fn na() -> (r: Self)
        ensures
            r == Self::spec_na(),
            r.spec_is_na(),
    ;
}

impl CanBeNA for i32 {
    open spec fn spec_is_na(&self) -> bool {
        *self == i32::MIN
    }

    open spec fn spec_na() -> i32 {
        i32::MIN
    }

    fn is_na(&self) -> bool {
        *self == NA_INTEGER
    }

    fn na() -> i32 {
        NA_INTEGER
    }
}

/// A double is `NA` when it is a NaN whose low 32 bits hold 1954; other
/// NaNs are not `NA`.
impl CanBeNA for F64Bits {
    open spec fn spec_is_na(&self) -> bool {
        class_of(self.0 as nat, 52, 11) == FloatClass::Nan && (self.0 as nat) % pow2(32) == 1954
    }

    open spec fn spec_na() -> F64Bits {
        F64Bits(NA_REAL_BITS)
    }

    fn is_na(&self) -> bool {
        proof {
            lemma2_to64();
            lemma2_to64_rest();
        }
        let frac: u64 = self.0 % 0x10_0000_0000_0000;
        let expo: u64 = (self.0 / 0x10_0000_0000_0000) % 0x800;
        expo == 0x7ff && frac != 0 && self.0 % 0x1_0000_0000 == 1954
    }

    fn na() -> F64Bits {
        proof {
            lemma2_to64();
            lemma2_to64_rest();
        }
        F64Bits(NA_REAL_BITS)
    }
}

} // verus!
