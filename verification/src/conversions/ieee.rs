//! Exact conversion of IEEE-754 binary floating point numbers, given by
//! their bit patterns, into integers.
//!
//! A format has `p` fraction bits and `q` exponent bits (binary64: 52 and 11,
//! binary32: 23 and 8). All reasoning is on the bit pattern, read as a natural
//! number, so that no floating point arithmetic is involved.
use vstd::prelude::*;
use vstd::arithmetic::power2::{
    pow2,
    lemma_pow2_pos,
    lemma_pow2_adds,
    lemma_pow2_strictly_increases,
    lemma2_to64,
    lemma2_to64_rest,
};
use vstd::arithmetic::mul::{lemma_mul_inequality, lemma_mul_strict_inequality};
use vstd::arithmetic::div_mod::{lemma_basic_div, lemma_small_mod};

verus! {

/// Why a float could not be turned into an integer.
#[derive(Debug, Clone, Copy, PartialEq, Eq, Structural)]
pub enum ConversionError {
    Underflow,
    Overflow,
    NotIntegerish,
}

impl ConversionError {
    /// The text that describes the error, as shown to R users.
    pub fn message(&self) -> (s: &'static str)
        ensures
            *self == ConversionError::Underflow ==> s@ == "underflow"@,
            *self == ConversionError::Overflow ==> s@ == "overflow"@,
            *self == ConversionError::NotIntegerish ==> s@ == "not a whole number"@,
    {
        match self {
            ConversionError::Underflow => "underflow",
            ConversionError::Overflow => "overflow",
            ConversionError::NotIntegerish => "not a whole number",
        }
    }
}

/// The IEEE-754 categories of a floating point value.
#[derive(Debug, Clone, Copy, PartialEq, Eq, Structural)]
pub enum FloatClass {
    Nan,
    Infinite,
    Zero,
    Subnormal,
    Normal,
}

/// The fraction field of a bit pattern with `p` fraction bits.
pub open spec fn frac_field(bits: nat, p: nat) -> nat {
    bits % pow2(p)
}

/// The biased exponent field.
pub open spec fn exp_field(bits: nat, p: nat, q: nat) -> nat {
    (bits / pow2(p)) % pow2(q)
}

/// The sign bit: true for negative values.
pub open spec fn sign_field(bits: nat, p: nat, q: nat) -> bool {
    (bits / pow2(p + q)) % 2 == 1
}

pub open spec fn class_of(bits: nat, p: nat, q: nat) -> FloatClass {
    let e = exp_field(bits, p, q);
    let f = frac_field(bits, p);
    if e == pow2(q) - 1 {
        if f == 0 { FloatClass::Infinite } else { FloatClass::Nan }
    } else if e == 0 {
        if f == 0 { FloatClass::Zero } else { FloatClass::Subnormal }
    } else {
        FloatClass::Normal
    }
}

/// The integer significand of a normal number (hidden bit included).
pub open spec fn significand(bits: nat, p: nat) -> nat {
    pow2(p) + frac_field(bits, p)
}

/// The power of two that scales the significand of a normal number:
/// its value is `significand * 2^scale`.
pub open spec fn scale(bits: nat, p: nat, q: nat) -> int {
    exp_field(bits, p, q) - (pow2((q - 1) as nat) - 1) - p
}

/// The magnitude of `m * 2^e` rounded toward zero.
pub open spec fn trunc_magnitude(m: nat, e: int) -> nat {
    if e >= 0 {
        m * pow2(e as nat)
    } else {
        m / pow2((-e) as nat)
    }
}

/// Whether `m * 2^e` is a whole number.
pub open spec fn is_whole(m: nat, e: int) -> bool {
    e >= 0 || m % pow2((-e) as nat) == 0
}

/// The smallest value of an integer type with `k` value bits.
pub open spec fn int_min(signed: bool, k: nat) -> int {
    if signed { -(pow2(k) as int) } else { 0 }
}

/// The largest value of an integer type with `k` value bits.
pub open spec fn int_max(k: nat) -> int {
    pow2(k) - 1
}

/// The largest value of the integer type as the float format with `p`
/// fraction bits represents it (rounded to nearest, ties to even).
pub open spec fn int_max_rounded(k: nat, p: nat) -> int {
    if k <= p + 1 { pow2(k) - 1 } else { pow2(k) as int }
}

/// Conversion of a normal number with the given sign, truncated magnitude and
/// wholeness into `[lo, hi]`; `hi_f` is `hi` as the float format rounds it.
/// In range, a value equal to `hi_f` above `hi` saturates to `hi`.
pub open spec fn convert_normal(
    neg: bool,
    mag: int,
    whole: bool,
    lo: int,
    hi: int,
    hi_f: int,
) -> Result<int, ConversionError> {
    let t = if neg { -mag } else { mag };
    if t < lo {
        Err(ConversionError::Underflow)
    } else if t > hi_f {
        Err(ConversionError::Overflow)
    } else if !whole {
        Err(ConversionError::NotIntegerish)
    } else if t > hi {
        Ok(hi)
    } else {
        Ok(t)
    }
}

/// Conversion of the normal number with bit pattern `bits` into the integer
/// type with sign `signed` and `k` value bits.
pub open spec fn convert_normal_bits(bits: nat, p: nat, q: nat, signed: bool, k: nat) -> Result<
    int,
    ConversionError,
> {
    let m = significand(bits, p);
    let e = scale(bits, p, q);
    convert_normal(
        sign_field(bits, p, q),
        trunc_magnitude(m, e) as int,
        is_whole(m, e),
        int_min(signed, k),
        int_max(k),
        int_max_rounded(k, p),
    )
}

/// Float to integer conversion where zeros give 0, infinities overflow or
/// underflow, and NaNs and subnormals are not whole numbers.
pub open spec fn float_to_int(bits: nat, p: nat, q: nat, signed: bool, k: nat) -> Result<
    int,
    ConversionError,
> {
    match class_of(bits, p, q) {
        FloatClass::Nan | FloatClass::Subnormal => Err(ConversionError::NotIntegerish),
        FloatClass::Zero => Ok(0),
        FloatClass::Infinite => if sign_field(bits, p, q) {
            Err(ConversionError::Underflow)
        } else {
            Err(ConversionError::Overflow)
        },
        FloatClass::Normal => convert_normal_bits(bits, p, q, signed, k),
    }
}

/// Float to integer conversion that accepts normal numbers only: every other
/// value (zeros included) is not a whole number.
pub open spec fn float_to_integerish(bits: nat, p: nat, q: nat, signed: bool, k: nat) -> Result<
    int,
    ConversionError,
> {
    if class_of(bits, p, q) == FloatClass::Normal {
        convert_normal_bits(bits, p, q, signed, k)
    } else {
        Err(ConversionError::NotIntegerish)
    }
}

/// The formats handled here: binary64 and binary32.
pub open spec fn supported_format(p: nat, q: nat) -> bool {
    (p == 52 && q == 11) || (p == 23 && q == 8)
}

/// The integer that a sign and a magnitude stand for.
pub open spec fn signed_value(neg: bool, mag: nat) -> int {
    if neg { -(mag as int) } else { mag as int }
}

/// `2^e` bounds `m * 2^e` when `2^p <= m < 2^(p+1)`.
proof fn lemma_scaled_bounds(m: nat, p: nat, e: nat)
    requires
        pow2(p) <= m < pow2(p + 1),
    ensures
        pow2(p + e) <= m * pow2(e) < pow2(p + e + 1),
{
    lemma_pow2_adds(p, e);
    lemma_pow2_adds(p + 1, e);
    lemma_pow2_pos(e);
    lemma_mul_inequality(pow2(p) as int, m as int, pow2(e) as int);
    lemma_mul_strict_inequality(m as int, pow2(p + 1) as int, pow2(e) as int);
    assert(p + 1 + e == p + e + 1);
}

/// Comparisons of `m * 2^e` with `2^k` reduce to comparisons of exponents.
proof fn lemma_compare_scaled(m: nat, p: nat, e: nat, k: nat)
    requires
        pow2(p) <= m < pow2(p + 1),
    ensures
        (m * pow2(e) >= pow2(k)) <==> (p + e >= k),
        (m * pow2(e) > pow2(k)) <==> (p + e > k || (p + e == k && m > pow2(p))),
{
    lemma_scaled_bounds(m, p, e);
    if p + e > k {
        lemma_pow2_strictly_increases(k, p + e);
    } else if p + e < k {
        if p + e + 1 < k {
            lemma_pow2_strictly_increases(p + e + 1, k);
        }
    } else {
        lemma_pow2_adds(p, e);
        lemma_pow2_pos(e);
        if m > pow2(p) {
            lemma_mul_strict_inequality(pow2(p) as int, m as int, pow2(e) as int);
        }
    }
}

/// `2^k` for `k < 128`.
fn pow2_u128(k: u64) -> (r: u128)
    requires
        k < 128,
    ensures
        r == pow2(k as nat),
{
    let mut r: u128 = 1;
    let mut i: u64 = 0;
    proof {
        lemma2_to64();
    }
    while i < k
        invariant
            i <= k < 128,
            r == pow2(i as nat),
        decreases k - i,
    {
        proof {
            lemma_pow2_strictly_increases((i + 1) as nat, 128);
            lemma_pow2_adds(i as nat, 1);
            lemma_pow2_adds(64, 64);
            lemma2_to64();
        }
        r = r * 2;
        i = i + 1;
    }
    r
}

/// `2^k - 1`, the largest value of an integer type with `k <= 128` value bits.
fn int_max_u128(k: u64) -> (r: u128)
    requires
        1 <= k <= 128,
    ensures
        r == pow2(k as nat) - 1,
{
    if k == 128 {
        proof {
            lemma_pow2_adds(64, 64);
            lemma2_to64();
        }
        u128::MAX
    } else {
        let v: u128 = pow2_u128(k);
        proof {
            lemma_pow2_pos(k as nat);
        }
        v - 1
    }
}

/// Whether `mag >= 2^k`, for `k <= 128`.
fn ge_pow2(mag: u128, k: u64) -> (r: bool)
    requires
        k <= 128,
    ensures
        r == (mag >= pow2(k as nat)),
{
    if k == 128 {
        proof {
            lemma_pow2_adds(64, 64);
            lemma2_to64();
        }
        false
    } else {
        mag >= pow2_u128(k)
    }
}

/// Whether `mag > 2^k`, for `k <= 128`.
fn gt_pow2(mag: u128, k: u64) -> (r: bool)
    requires
        k <= 128,
    ensures
        r == (mag > pow2(k as nat)),
{
    if k == 128 {
        proof {
            lemma_pow2_adds(64, 64);
            lemma2_to64();
        }
        false
    } else {
        mag > pow2_u128(k)
    }
}

/// `m * 2^e` computed exactly, when it is below `2^128`.
fn scale_up(m: u64, e: u64, Ghost(p): Ghost<nat>) -> (r: u128)
    requires
        pow2(p) <= m < pow2(p + 1),
        p + e < 128,
    ensures
        r == m * pow2(e as nat),
{
    let mut r: u128 = m as u128;
    let mut i: u64 = 0;
    proof {
        lemma2_to64();
    }
    while i < e
        invariant
            i <= e,
            p + e < 128,
            pow2(p) <= m < pow2(p + 1),
            r == m * pow2(i as nat),
        decreases e - i,
    {
        proof {
            lemma_scaled_bounds(m as nat, p, (i + 1) as nat);
            lemma_pow2_adds(i as nat, 1);
            lemma2_to64();
            if p + i + 2 < 128 {
                lemma_pow2_strictly_increases((p + i + 2) as nat, 128);
            }
            lemma_pow2_adds(64, 64);
            assert(m * pow2((i + 1) as nat) == (m * pow2(i as nat)) * 2) by (nonlinear_arith)
                requires
                    pow2((i + 1) as nat) == pow2(i as nat) * 2,
            ;
        }
        r = r * 2;
        i = i + 1;
    }
    r
}

/// The conversion of the result spec of `convert_normal` for a normal number
/// with significand `m` scaled up by `2^e` (a whole number).
pub open spec fn scaled_up_spec(neg: bool, m: nat, e: nat, p: nat, signed: bool, k: nat) -> Result<
    int,
    ConversionError,
> {
    convert_normal(
        neg,
        (m * pow2(e)) as int,
        true,
        int_min(signed, k),
        int_max(k),
        int_max_rounded(k, p),
    )
}

/// The same for a significand scaled down by `2^s`, `s > 0`.
pub open spec fn scaled_down_spec(neg: bool, m: nat, s: nat, p: nat, signed: bool, k: nat) -> Result<
    int,
    ConversionError,
> {
    convert_normal(
        neg,
        (m / pow2(s)) as int,
        m % pow2(s) == 0,
        int_min(signed, k),
        int_max(k),
        int_max_rounded(k, p),
    )
}

/// Whether a sign and magnitude answer `expected` and lies in the range of
/// the integer type.
pub open spec fn answers(
    r: Result<(bool, u128), ConversionError>,
    expected: Result<int, ConversionError>,
    signed: bool,
    k: nat,
) -> bool {
    match r {
        Ok((neg, mag)) => {
            &&& expected == Ok::<int, ConversionError>(signed_value(neg, mag as nat))
            &&& int_min(signed, k) <= signed_value(neg, mag as nat) <= int_max(k)
        },
        Err(e) => expected == Err::<int, ConversionError>(e),
    }
}

/// Conversion of `m * 2^e` for a significand `2^p <= m < 2^(p+1)`.
fn convert_scaled_up(neg: bool, m: u64, unit: u64, p: u64, e: u64, signed: bool, k: u64) -> (r:
    Result<(bool, u128), ConversionError>)
    requires
        unit == pow2(p as nat),
        unit <= m < 2 * unit,
        p <= 52,
        e < 2048,
        1 <= k <= 128,
        signed ==> k <= 127,
    ensures
        answers(r, scaled_up_spec(neg, m as nat, e as nat, p as nat, signed, k as nat), signed, k as nat),
{
    let ghost pn: nat = p as nat;
    let ghost kn: nat = k as nat;
    let ghost mag: nat = (m as nat) * pow2(e as nat);
    proof {
        lemma_pow2_adds(pn, 1);
        lemma2_to64();
        lemma_compare_scaled(m as nat, pn, e as nat, kn);
        lemma_scaled_bounds(m as nat, pn, e as nat);
        lemma_pow2_pos((p + e) as nat);
        lemma_pow2_pos(kn);
    }
    let pe: u64 = p + e;
    let exact_max: bool = k <= p + 1;
    if neg {
        if !signed || pe > k || (pe == k && m > unit) {
            return Err(ConversionError::Underflow);
        }
    } else {
        if exact_max {
            if pe >= k {
                return Err(ConversionError::Overflow);
            }
        } else {
            if pe > k || (pe == k && m > unit) {
                return Err(ConversionError::Overflow);
            }
        }
    }
    if pe >= k {
        // the magnitude is exactly 2^k
        assert(mag == pow2(kn));
        if neg {
            let v: u128 = pow2_u128(k);
            return Ok((true, v));
        } else {
            let v: u128 = int_max_u128(k);
            return Ok((false, v));
        }
    }
    let v: u128 = scale_up(m, e, Ghost(pn));
    Ok((neg, v))
}

/// Conversion of `m / 2^s` (rounded toward zero) for a significand
/// `2^p <= m < 2^(p+1)` and `s > 0`.
fn convert_scaled_down(neg: bool, m: u64, unit: u64, p: u64, s: u64, signed: bool, k: u64) -> (r:
    Result<(bool, u128), ConversionError>)
    requires
        unit == pow2(p as nat),
        unit <= m < 2 * unit,
        p <= 52,
        0 < s < 2048,
        1 <= k <= 128,
        signed ==> k <= 127,
    ensures
        answers(r, scaled_down_spec(neg, m as nat, s as nat, p as nat, signed, k as nat), signed, k as nat),
{
    let ghost pn: nat = p as nat;
    let ghost kn: nat = k as nat;
    proof {
        lemma_pow2_adds(pn, 1);
        lemma2_to64();
        lemma_pow2_pos(kn);
        lemma_pow2_pos(s as nat);
    }
    let mag: u64;
    let whole: bool;
    if s >= 64 {
        proof {
            lemma2_to64_rest();
            lemma_pow2_strictly_increases(pn + 1, 64);
            if s > 64 {
                lemma_pow2_strictly_increases(64, s as nat);
            }
            lemma_basic_div(m as int, pow2(s as nat) as int);
            lemma_small_mod(m as nat, pow2(s as nat));
        }
        mag = 0;
        whole = false;
    } else {
        let d: u64 = 1u64 << s;
        proof {
            vstd::bits::lemma_u64_pow2_no_overflow(s as nat);
            vstd::bits::lemma_u64_shl_is_mul(1, s);
        }
        assert(d == pow2(s as nat));
        mag = m / d;
        whole = m % d == 0;
        assert(mag <= m) by (nonlinear_arith)
            requires
                mag == (m as nat) / (d as nat),
                d > 0,
        ;
    }
    assert(mag == (m as nat) / pow2(s as nat));
    assert(whole == ((m as nat) % pow2(s as nat) == 0));
    let mg: u128 = mag as u128;
    if neg {
        if !signed {
            if mag > 0 {
                return Err(ConversionError::Underflow);
            }
        } else if gt_pow2(mg, k) {
            return Err(ConversionError::Underflow);
        }
    } else {
        if k <= p + 1 {
            if ge_pow2(mg, k) {
                return Err(ConversionError::Overflow);
            }
        } else if gt_pow2(mg, k) {
            return Err(ConversionError::Overflow);
        }
    }
    if !whole {
        return Err(ConversionError::NotIntegerish);
    }
    proof {
        if k > p + 1 {
            lemma_pow2_strictly_increases(pn + 1, kn);
        }
    }
    Ok((neg, mg))
}

/// The fields of a bit pattern: sign, biased exponent and fraction.
fn decode(bits: u64, p: u64, q: u64) -> (r: (bool, u64, u64))
    requires
        supported_format(p as nat, q as nat),
        bits < pow2((p + q + 1) as nat),
    ensures
        r.0 == sign_field(bits as nat, p as nat, q as nat),
        r.1 == exp_field(bits as nat, p as nat, q as nat),
        r.2 == frac_field(bits as nat, p as nat),
        r.1 < pow2(q as nat),
        r.2 < pow2(p as nat),
{
    proof {
        lemma2_to64();
        lemma2_to64_rest();
        lemma_pow2_adds(p as nat, q as nat);
    }
    let frac_scale: u64 = if p == 52 { 0x10_0000_0000_0000 } else { 0x80_0000 };
    let exp_scale: u64 = if q == 11 { 0x800 } else { 0x100 };
    let frac: u64 = bits % frac_scale;
    let expo: u64 = (bits / frac_scale) % exp_scale;
    let top: u64 = frac_scale * exp_scale;
    let neg: bool = (bits / top) % 2 == 1;
    (neg, expo, frac)
}

/// Convert the float with bit pattern `bits` (`p` fraction and `q` exponent
/// bits) into an integer of the type with sign `signed` and `k` value bits.
/// With `strict`, only normal numbers are accepted (`float_to_integerish`),
/// otherwise zeros and infinities are handled as in `float_to_int`.
///
/// The integer comes back as a sign and a magnitude.
pub fn convert_bits(bits: u64, p: u64, q: u64, signed: bool, k: u64, strict: bool) -> (r: Result<
    (bool, u128),
    ConversionError,
>)
    requires
        supported_format(p as nat, q as nat),
        bits < pow2((p + q + 1) as nat),
        1 <= k <= 128,
        signed ==> k <= 127,
    ensures
        answers(
            r,
            if strict {
                float_to_integerish(bits as nat, p as nat, q as nat, signed, k as nat)
            } else {
                float_to_int(bits as nat, p as nat, q as nat, signed, k as nat)
            },
            signed,
            k as nat,
        ),
{
    proof {
        lemma2_to64();
        lemma2_to64_rest();
        lemma_pow2_pos(k as nat);
    }
    let (neg, expo, frac) = decode(bits, p, q);
    let unit: u64 = if p == 52 { 0x10_0000_0000_0000 } else { 0x80_0000 };
    let exp_all: u64 = if q == 11 { 0x7ff } else { 0xff };
    let bias: u64 = if q == 11 { 1023 } else { 127 };
    assert(unit == pow2(p as nat));
    assert(exp_all == pow2(q as nat) - 1);
    assert(bias == pow2((q - 1) as nat) - 1);
    if expo == exp_all {
        // infinities and NaNs
        if strict || frac != 0 {
            return Err(ConversionError::NotIntegerish);
        }
        if neg {
            return Err(ConversionError::Underflow);
        } else {
            return Err(ConversionError::Overflow);
        }
    }
    if expo == 0 {
        // zeros and subnormals
        if strict || frac != 0 {
            return Err(ConversionError::NotIntegerish);
        }
        return Ok((false, 0));
    }
    // normal numbers: significand * 2^(expo - bias - p)

    let m: u64 = unit + frac;
    assert(m == significand(bits as nat, p as nat));
    if expo >= bias + p {
        let e: u64 = expo - bias - p;
        assert(scale(bits as nat, p as nat, q as nat) == e);
        convert_scaled_up(neg, m, unit, p, e, signed, k)
    } else {
        let s: u64 = bias + p - expo;
        assert(scale(bits as nat, p as nat, q as nat) == -(s as int));
        convert_scaled_down(neg, m, unit, p, s, signed, k)
    }
}

/// On normal numbers the two conversions agree; they differ only on zeros
/// (0 against "not a whole number") and infinities (overflow or underflow
/// against "not a whole number").
pub proof fn lemma_conversions_agree_on_normals(bits: nat, p: nat, q: nat, signed: bool, k: nat)
    requires
        class_of(bits, p, q) == FloatClass::Normal,
    ensures
        float_to_int(bits, p, q, signed, k) == float_to_integerish(bits, p, q, signed, k),
{
}

/// A conversion that succeeds below the maximum of a type also succeeds,
/// with the same value, into every wider type of the same signedness.
/// (At the maximum the narrower type may have saturated a value that the
/// float format rounded up, which the wider type holds exactly.)
pub proof fn lemma_widening_keeps_value(bits: nat, p: nat, q: nat, signed: bool, k1: nat, k2: nat, v: int)
    requires
        k1 <= k2,
        float_to_int(bits, p, q, signed, k1) == Ok::<int, ConversionError>(v),
        v < int_max(k1),
    ensures
        float_to_int(bits, p, q, signed, k2) == Ok::<int, ConversionError>(v),
{
    if k1 < k2 {
        lemma_pow2_strictly_increases(k1, k2);
    }
    lemma_pow2_pos(k1);
}

/// Whether the normal float with bit pattern `bits` holds exactly the
/// integer `v`: its sign is that of `v`, and `|v|` equals its significand
/// times two to its scale.
pub open spec fn holds_whole(bits: nat, p: nat, q: nat, v: int) -> bool {
    let m = significand(bits, p);
    let e = scale(bits, p, q);
    let a = if v < 0 { -v } else { v };
    &&& class_of(bits, p, q) == FloatClass::Normal
    &&& sign_field(bits, p, q) == (v < 0)
    &&& if e >= 0 {
        a == m * pow2(e as nat)
    } else {
        a * pow2((-e) as nat) == m
    }
}

/// Whether the magnitude of the normal float with bit pattern `bits` is at
/// least `c`.
pub open spec fn magnitude_at_least(bits: nat, p: nat, q: nat, c: int) -> bool {
    let m = significand(bits, p);
    let e = scale(bits, p, q);
    if e >= 0 {
        m * pow2(e as nat) >= c
    } else {
        m >= c * pow2((-e) as nat)
    }
}

/// Truncating a magnitude of at least `c` toward zero gives at least `c`.
proof fn lemma_truncation_at_least(bits: nat, p: nat, q: nat, c: int)
    requires
        magnitude_at_least(bits, p, q, c),
        c >= 0,
    ensures
        trunc_magnitude(significand(bits, p), scale(bits, p, q)) >= c,
{
    let m = significand(bits, p);
    let e = scale(bits, p, q);
    if e < 0 {
        let d = pow2((-e) as nat);
        lemma_pow2_pos((-e) as nat);
        vstd::arithmetic::div_mod::lemma_div_is_ordered(c * d, m as int, d as int);
        vstd::arithmetic::div_mod::lemma_div_by_multiple(c, d as int);
    }
}

/// A normal float holding a whole number inside an integer type's range
/// converts to that number, in both conversions.
pub proof fn lemma_whole_in_range(bits: nat, p: nat, q: nat, signed: bool, k: nat, v: int)
    requires
        holds_whole(bits, p, q, v),
        int_min(signed, k) <= v <= int_max(k),
    ensures
        float_to_int(bits, p, q, signed, k) == Ok::<int, ConversionError>(v),
        float_to_integerish(bits, p, q, signed, k) == Ok::<int, ConversionError>(v),
{
    let m = significand(bits, p);
    let e = scale(bits, p, q);
    let a = if v < 0 { -v } else { v };
    if e < 0 {
        let d = pow2((-e) as nat);
        lemma_pow2_pos((-e) as nat);
        vstd::arithmetic::div_mod::lemma_div_by_multiple(a, d as int);
        vstd::arithmetic::div_mod::lemma_mod_multiples_basic(a, d as int);
    }
    assert(trunc_magnitude(m, e) == a);
    assert(is_whole(m, e));
}

/// A negative normal float whose magnitude reaches one past an integer
/// type's minimum underflows, in both conversions.
pub proof fn lemma_below_range(bits: nat, p: nat, q: nat, signed: bool, k: nat)
    requires
        class_of(bits, p, q) == FloatClass::Normal,
        sign_field(bits, p, q),
        magnitude_at_least(bits, p, q, 1 - int_min(signed, k)),
    ensures
        float_to_int(bits, p, q, signed, k) == Err::<int, ConversionError>(ConversionError::Underflow),
        float_to_integerish(bits, p, q, signed, k) == Err::<int, ConversionError>(
            ConversionError::Underflow,
        ),
{
    lemma_pow2_pos(k);
    lemma_truncation_at_least(bits, p, q, 1 - int_min(signed, k));
}

/// A positive normal float whose magnitude reaches two above an integer
/// type's maximum overflows, in both conversions. (One above the maximum
/// may be the maximum as the float format rounds it.)
pub proof fn lemma_above_range(bits: nat, p: nat, q: nat, signed: bool, k: nat)
    requires
        class_of(bits, p, q) == FloatClass::Normal,
        !sign_field(bits, p, q),
        magnitude_at_least(bits, p, q, int_max(k) + 2),
    ensures
        float_to_int(bits, p, q, signed, k) == Err::<int, ConversionError>(ConversionError::Overflow),
        float_to_integerish(bits, p, q, signed, k) == Err::<int, ConversionError>(
            ConversionError::Overflow,
        ),
{
    lemma_pow2_pos(k);
    lemma_truncation_at_least(bits, p, q, int_max(k) + 2);
}

/// Values of the powers of two that bound the integer types.
pub proof fn lemma_integer_bounds()
    ensures
        pow2(7) == 0x80,
        pow2(8) == 0x100,
        pow2(15) == 0x8000,
        pow2(16) == 0x1_0000,
        pow2(31) == 0x8000_0000,
        pow2(32) == 0x1_0000_0000,
        pow2(63) == 0x8000_0000_0000_0000,
        pow2(64) == 0x1_0000_0000_0000_0000,
        pow2(127) == 0x8000_0000_0000_0000_0000_0000_0000_0000,
        pow2(128) == 0x1_0000_0000_0000_0000_0000_0000_0000_0000,
{
    lemma2_to64();
    lemma2_to64_rest();
    lemma_pow2_adds(63, 64);
    lemma_pow2_adds(64, 64);
}

/// Every 64-bit pattern is a binary64 pattern.
pub proof fn lemma_f64_pattern(bits: u64)
    ensures
        bits < pow2(64),
{
    lemma2_to64();
}

/// Every 32-bit pattern is a binary32 pattern.
pub proof fn lemma_f32_pattern(bits: u32)
    ensures
        bits < pow2(32),
{
    lemma2_to64();
}

/// The `i128` that a sign and a magnitude stand for.
pub fn value_signed(neg: bool, mag: u128) -> (v: i128)
    requires
        -pow2(127) <= signed_value(neg, mag as nat) < pow2(127),
    ensures
        v == signed_value(neg, mag as nat),
{
    proof {
        lemma_integer_bounds();
    }
    if neg {
        if mag == 0 {
            0
        } else {
            let below: i128 = (mag - 1) as i128;
            -below - 1
        }
    } else {
        mag as i128
    }
}

} // verus!
