//! The types of R objects, and their codes (`SEXPTYPE`) in R's C interface.
use vstd::prelude::*;

verus! {

/// R's type code `NILSXP`.
pub const NILSXP: u32 = 0;

/// R's type code `SYMSXP`.
pub const SYMSXP: u32 = 1;

/// R's type code `LISTSXP`.
pub const LISTSXP: u32 = 2;

/// R's type code `CLOSXP`.
pub const CLOSXP: u32 = 3;

/// R's type code `ENVSXP`.
pub const ENVSXP: u32 = 4;

/// R's type code `PROMSXP`.
pub const PROMSXP: u32 = 5;

/// R's type code `LANGSXP`.
pub const LANGSXP: u32 = 6;

/// R's type code `SPECIALSXP`.
pub const SPECIALSXP: u32 = 7;

/// R's type code `BUILTINSXP`.
pub const BUILTINSXP: u32 = 8;

/// R's type code `CHARSXP`.
pub const CHARSXP: u32 = 9;

/// R's type code `LGLSXP`.
pub const LGLSXP: u32 = 10;

/// R's type code `INTSXP`.
pub const INTSXP: u32 = 13;

/// R's type code `REALSXP`.
pub const REALSXP: u32 = 14;

/// R's type code `CPLXSXP`.
pub const CPLXSXP: u32 = 15;

/// R's type code `STRSXP`.
pub const STRSXP: u32 = 16;

/// R's type code `DOTSXP`.
pub const DOTSXP: u32 = 17;

/// R's type code `ANYSXP`.
pub const ANYSXP: u32 = 18;

/// R's type code `VECSXP`.
pub const VECSXP: u32 = 19;

/// R's type code `EXPRSXP`.
pub const EXPRSXP: u32 = 20;

/// R's type code `BCODESXP`.
pub const BCODESXP: u32 = 21;

/// R's type code `EXTPTRSXP`.
pub const EXTPTRSXP: u32 = 22;

/// R's type code `WEAKREFSXP`.
pub const WEAKREFSXP: u32 = 23;

/// R's type code `RAWSXP`.
pub const RAWSXP: u32 = 24;

/// R's type code `S4SXP`.
pub const S4SXP: u32 = 25;

/// Type of R objects.
#[derive(Debug, PartialEq, Eq, Structural, Clone, Copy)]
pub enum Rtype {
    Null,
    Symbol,
    Pairlist,
    Function,
    Environment,
    Promise,
    Language,
    Special,
    Builtin,
    Rstr,
    Logicals,
    Integers,
    Doubles,
    Complexes,
    Strings,
    Dot,
    Any,
    List,
    Expressions,
    Bytecode,
    ExternalPtr,
    WeakRef,
    Raw,
    S4,
    Unknown,
}

/// R's type code of `t`; `None` for `Unknown`, which has none.
pub open spec fn sxp_of(t: Rtype) -> Option<u32> {
    match t {
        Rtype::Null => Some(NILSXP),
        Rtype::Symbol => Some(SYMSXP),
        Rtype::Pairlist => Some(LISTSXP),
        Rtype::Function => Some(CLOSXP),
        Rtype::Environment => Some(ENVSXP),
        Rtype::Promise => Some(PROMSXP),
        Rtype::Language => Some(LANGSXP),
        Rtype::Special => Some(SPECIALSXP),
        Rtype::Builtin => Some(BUILTINSXP),
        Rtype::Rstr => Some(CHARSXP),
        Rtype::Logicals => Some(LGLSXP),
        Rtype::Integers => Some(INTSXP),
        Rtype::Doubles => Some(REALSXP),
        Rtype::Complexes => Some(CPLXSXP),
        Rtype::Strings => Some(STRSXP),
        Rtype::Dot => Some(DOTSXP),
        Rtype::Any => Some(ANYSXP),
        Rtype::List => Some(VECSXP),
        Rtype::Expressions => Some(EXPRSXP),
        Rtype::Bytecode => Some(BCODESXP),
        Rtype::ExternalPtr => Some(EXTPTRSXP),
        Rtype::WeakRef => Some(WEAKREFSXP),
        Rtype::Raw => Some(RAWSXP),
        Rtype::S4 => Some(S4SXP),
        Rtype::Unknown => None,
    }
}

/// The type whose code is `code`; `Unknown` for a code of no listed type.
pub open spec fn rtype_of(code: int) -> Rtype {
    if code == NILSXP as int {
        Rtype::Null
    } else if code == SYMSXP as int {
        Rtype::Symbol
    } else if code == LISTSXP as int {
        Rtype::Pairlist
    } else if code == CLOSXP as int {
        Rtype::Function
    } else if code == ENVSXP as int {
        Rtype::Environment
    } else if code == PROMSXP as int {
        Rtype::Promise
    } else if code == LANGSXP as int {
        Rtype::Language
    } else if code == SPECIALSXP as int {
        Rtype::Special
    } else if code == BUILTINSXP as int {
        Rtype::Builtin
    } else if code == CHARSXP as int {
        Rtype::Rstr
    } else if code == LGLSXP as int {
        Rtype::Logicals
    } else if code == INTSXP as int {
        Rtype::Integers
    } else if code == REALSXP as int {
        Rtype::Doubles
    } else if code == CPLXSXP as int {
        Rtype::Complexes
    } else if code == STRSXP as int {
        Rtype::Strings
    } else if code == DOTSXP as int {
        Rtype::Dot
    } else if code == ANYSXP as int {
        Rtype::Any
    } else if code == VECSXP as int {
        Rtype::List
    } else if code == EXPRSXP as int {
        Rtype::Expressions
    } else if code == BCODESXP as int {
        Rtype::Bytecode
    } else if code == EXTPTRSXP as int {
        Rtype::ExternalPtr
    } else if code == WEAKREFSXP as int {
        Rtype::WeakRef
    } else if code == RAWSXP as int {
        Rtype::Raw
    } else if code == S4SXP as int {
        Rtype::S4
    } else {
        Rtype::Unknown
    }
}

/// Convert a type to R's `SEXPTYPE` code. `Unknown` has no code, so it is
/// not accepted.
pub fn rtype_to_sxp(rtype: Rtype) -> (code: i32)
    requires
        rtype != Rtype::Unknown,
    ensures
        sxp_of(rtype) == Some(code as u32),
        code >= 0,
{
    let c: u32 = match rtype {
        Rtype::Null => NILSXP,
        Rtype::Symbol => SYMSXP,
        Rtype::Pairlist => LISTSXP,
        Rtype::Function => CLOSXP,
        Rtype::Environment => ENVSXP,
        Rtype::Promise => PROMSXP,
        Rtype::Language => LANGSXP,
        Rtype::Special => SPECIALSXP,
        Rtype::Builtin => BUILTINSXP,
        Rtype::Rstr => CHARSXP,
        Rtype::Logicals => LGLSXP,
        Rtype::Integers => INTSXP,
        Rtype::Doubles => REALSXP,
        Rtype::Complexes => CPLXSXP,
        Rtype::Strings => STRSXP,
        Rtype::Dot => DOTSXP,
        Rtype::Any => ANYSXP,
        Rtype::List => VECSXP,
        Rtype::Expressions => EXPRSXP,
        Rtype::Bytecode => BCODESXP,
        Rtype::ExternalPtr => EXTPTRSXP,
        Rtype::WeakRef => WEAKREFSXP,
        Rtype::Raw => RAWSXP,
        Rtype::S4 => S4SXP,
        Rtype::Unknown => 0,
    };
    c as i32
}

/// Convert R's `SEXPTYPE` code to a type: `Unknown` for a code of no
/// listed type (negative codes included).
pub fn sxp_to_rtype(sxptype: i32) -> (t: Rtype)
    ensures
        t == rtype_of(sxptype as int),
{
    if sxptype < 0 {
        return Rtype::Unknown;
    }
    let c: u32 = sxptype as u32;

    if c == NILSXP {
        return Rtype::Null;
    }
    if c == SYMSXP {
        return Rtype::Symbol;
    }
    if c == LISTSXP {
        return Rtype::Pairlist;
    }
    if c == CLOSXP {
        return Rtype::Function;
    }
    if c == ENVSXP {
        return Rtype::Environment;
    }
    if c == PROMSXP {
        return Rtype::Promise;
    }
    if c == LANGSXP {
        return Rtype::Language;
    }
    if c == SPECIALSXP {
        return Rtype::Special;
    }
    if c == BUILTINSXP {
        return Rtype::Builtin;
    }
    if c == CHARSXP {
        return Rtype::Rstr;
    }
    if c == LGLSXP {
        return Rtype::Logicals;
    }
    if c == INTSXP {
        return Rtype::Integers;
    }
    if c == REALSXP {
        return Rtype::Doubles;
    }
    if c == CPLXSXP {
        return Rtype::Complexes;
    }
    if c == STRSXP {
        return Rtype::Strings;
    }
    if c == DOTSXP {
        return Rtype::Dot;
    }
    if c == ANYSXP {
        return Rtype::Any;
    }
    if c == VECSXP {
        return Rtype::List;
    }
    if c == EXPRSXP {
        return Rtype::Expressions;
    }
    if c == BCODESXP {
        return Rtype::Bytecode;
    }
    if c == EXTPTRSXP {
        return Rtype::ExternalPtr;
    }
    if c == WEAKREFSXP {
        return Rtype::WeakRef;
    }
    if c == RAWSXP {
        return Rtype::Raw;
    }
    if c == S4SXP {
        return Rtype::S4;
    }
    Rtype::Unknown
}

/// The name of a type, as printed for debugging.
pub open spec fn rtype_text(t: Rtype) -> Seq<char> {
    match t {
        Rtype::Null => "Null"@,
        Rtype::Symbol => "Symbol"@,
        Rtype::Pairlist => "Pairlist"@,
        Rtype::Function => "Function"@,
        Rtype::Environment => "Environment"@,
        Rtype::Promise => "Promise"@,
        Rtype::Language => "Language"@,
        Rtype::Special => "Special"@,
        Rtype::Builtin => "Builtin"@,
        Rtype::Rstr => "Rstr"@,
        Rtype::Logicals => "Logicals"@,
        Rtype::Integers => "Integers"@,
        Rtype::Doubles => "Doubles"@,
        Rtype::Complexes => "Complexes"@,
        Rtype::Strings => "Strings"@,
        Rtype::Dot => "Dot"@,
        Rtype::Any => "Any"@,
        Rtype::List => "List"@,
        Rtype::Expressions => "Expressions"@,
        Rtype::Bytecode => "Bytecode"@,
        Rtype::ExternalPtr => "ExternalPtr"@,
        Rtype::WeakRef => "WeakRef"@,
        Rtype::Raw => "Raw"@,
        Rtype::S4 => "S4"@,
        Rtype::Unknown => "Unknown"@,
    }
}

impl Rtype {
    /// The name of the type, as printed for debugging.
    pub fn name(&self) -> (r: &'static str)
        ensures
            r@ == rtype_text(*self),
    {
        match self {
            Rtype::Null => "Null",
            Rtype::Symbol => "Symbol",
            Rtype::Pairlist => "Pairlist",
            Rtype::Function => "Function",
            Rtype::Environment => "Environment",
            Rtype::Promise => "Promise",
            Rtype::Language => "Language",
            Rtype::Special => "Special",
            Rtype::Builtin => "Builtin",
            Rtype::Rstr => "Rstr",
            Rtype::Logicals => "Logicals",
            Rtype::Integers => "Integers",
            Rtype::Doubles => "Doubles",
            Rtype::Complexes => "Complexes",
            Rtype::Strings => "Strings",
            Rtype::Dot => "Dot",
            Rtype::Any => "Any",
            Rtype::List => "List",
            Rtype::Expressions => "Expressions",
            Rtype::Bytecode => "Bytecode",
            Rtype::ExternalPtr => "ExternalPtr",
            Rtype::WeakRef => "WeakRef",
            Rtype::Raw => "Raw",
            Rtype::S4 => "S4",
            Rtype::Unknown => "Unknown",
        }
    }
}

/// Converting a known type to its code and back gives the type again.
pub proof fn lemma_type_code_roundtrip(t: Rtype)
    requires
        t != Rtype::Unknown,
    ensures
        sxp_of(t) matches Some(c) && rtype_of(c as int) == t,
{
}

/// A code that names a known type is that type's code.
pub proof fn lemma_code_type_roundtrip(code: int)
    requires
        rtype_of(code) != Rtype::Unknown,
    ensures
        sxp_of(rtype_of(code)) matches Some(c) && c as int == code,
{
}

} // verus!
