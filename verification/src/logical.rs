use vstd::prelude::*;
use crate::text::push_char;

verus! {

/// R's tristate logical: `TRUE` (1), `FALSE` (0) or `NA_LOGICAL` (`i32::MIN`),
/// stored as the raw `i32` that R uses. Its debug text is `debug_text`.
#[derive(PartialEq, Eq, Structural, Clone, Copy)]
pub struct Bool(pub i32);

/// The decimal digit of `d` (0 to 9).
pub open spec fn digit_char(d: int) -> char {
    ('0' as int + d) as char
}

/// The decimal digits of the natural number `n`, most significant first.
pub open spec fn decimal(n: nat) -> Seq<char>
    decreases n,
{
    if n < 10 {
        seq![digit_char(n as int)]
    } else {
        decimal(n / 10).push(digit_char(n as int % 10))
    }
}

/// The decimal text of the integer `n`, with `-` before a negative one.
pub open spec fn signed_decimal(n: int) -> Seq<char> {
    if n < 0 {
        seq!['-'] + decimal((-n) as nat)
    } else {
        decimal(n as nat)
    }
}

/// The debug text of a logical: `FALSE`, `TRUE`, `NA_LOGICAL`, and for any
/// other raw value `Bool(` and the value in decimal and `)`.
pub open spec fn bool_text(v: i32) -> Seq<char> {
    if v == 0 {
        "FALSE"@
    } else if v == 1 {
        "TRUE"@
    } else if v == i32::MIN {
        "NA_LOGICAL"@
    } else {
        "Bool("@ + signed_decimal(v as int) + ")"@
    }
}

/// Append the decimal digits of `n` to `s`.
fn push_decimal(s: &mut String, n: u32)
    ensures
        final(s)@ == old(s)@ + decimal(n as nat),
    decreases n,
{
    if n >= 10 {
        push_decimal(s, n / 10);
    }
    let d: u32 = n % 10;
    let c: char = match d {
        0 => '0',
        1 => '1',
        2 => '2',
        3 => '3',
        4 => '4',
        5 => '5',
        6 => '6',
        7 => '7',
        8 => '8',
        _ => '9',
    };
    assert(c == digit_char(d as int));
    push_char(s, c);
    proof {
        if n >= 10 {
            assert(decimal(n as nat) == decimal((n / 10) as nat).push(digit_char(d as int)));
        } else {
            assert(decimal(n as nat) == seq![digit_char(d as int)]);
        }
    }
}

impl Bool {
    /// Convert to a Rust `bool`: every non-zero value, `NA` included, is true.
    pub fn to_bool(&self) -> (b: bool)
        ensures
            b == (self.0 != 0),
    {
        self.0 != 0
    }

    /// Build from a Rust `bool`: `true` is 1 and `false` is 0.
    pub fn from_bool(val: bool) -> (r: Self)
        ensures
            r.0 == (if val { 1i32 } else { 0i32 }),
    {
        Bool(if val { 1 } else { 0 })
    }

    /// Test for `TRUE`.
    pub fn is_true(&self) -> (b: bool)
        ensures
            b == (self.0 == 1),
    {
        self.0 == 1
    }

    /// Test for `FALSE`.
    pub fn is_false(&self) -> (b: bool)
        ensures
            b == (self.0 == 0),
    {
        self.0 == 0
    }

    /// The logical as printed for debugging: `FALSE`, `TRUE`, `NA_LOGICAL`,
    /// or `Bool(n)` for any other raw value `n`.
    pub fn debug_text(&self) -> (r: String)
        ensures
            r@ == bool_text(self.0),
    {
        if self.0 == 0 {
            return String::from_str("FALSE");
        }
        if self.0 == 1 {
            return String::from_str("TRUE");
        }
        if self.0 == i32::MIN {
            return String::from_str("NA_LOGICAL");
        }
        let mut r = String::from_str("Bool(");
        let v: i32 = self.0;
        if v < 0 {
            push_char(&mut r, '-');
            let m: u32 = (0 - v) as u32;
            push_decimal(&mut r, m);
        } else {
            push_decimal(&mut r, v as u32);
        }
        r.append(")");
        r
    }
}

impl From<i32> for Bool {
    /// The logical with the raw value `v`.
    fn from(v: i32) -> (r: Bool) {
        Bool(v)
    }
}

impl vstd::std_specs::convert::FromSpecImpl<i32> for Bool {
    open spec fn obeys_from_spec() -> bool {
        true
    }

    open spec fn from_spec(v: i32) -> Bool {
        Bool(v)
    }
}

impl From<bool> for Bool {
    /// `TRUE` for `true`, `FALSE` for `false`.
    fn from(v: bool) -> (r: Bool) {
        Bool(if v { 1 } else { 0 })
    }
}

impl vstd::std_specs::convert::FromSpecImpl<bool> for Bool {
    open spec fn obeys_from_spec() -> bool {
        true
    }

    open spec fn from_spec(v: bool) -> Bool {
        Bool(if v { 1 } else { 0 })
    }
}

impl From<Bool> for bool {
    /// True for every non-zero value, `NA` included.
    fn from(v: Bool) -> (r: bool) {
        v.0 != 0
    }
}

impl vstd::std_specs::convert::FromSpecImpl<Bool> for bool {
    open spec fn obeys_from_spec() -> bool {
        true
    }

    open spec fn from_spec(v: Bool) -> bool {
        v.0 != 0
    }
}

impl From<&Bool> for bool {
    /// True for every non-zero value, `NA` included.
    fn from(v: &Bool) -> (r: bool) {
        v.0 != 0
    }
}

impl vstd::std_specs::convert::FromSpecImpl<&Bool> for bool {
    open spec fn obeys_from_spec() -> bool {
        true
    }

    open spec fn from_spec(v: &Bool) -> bool {
        v.0 != 0
    }
}

} // verus!
