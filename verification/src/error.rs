//! Errors of calls between Rust and R, and the text shown to R users for
//! each of them.
use vstd::prelude::*;
use crate::conversions::try_into_int::ConversionError;
use crate::rtype::{rtype_text, Rtype};

verus! {

/// What an error message shows of the R object it is about: the object as
/// printed for debugging, and its type as printed for debugging.
#[derive(Debug, Clone)]
pub struct ObjectText {
    pub debug: String,
    pub rtype: Rtype,
}

/// An error of a call between Rust and R, with what its message shows of
/// the objects involved.
#[derive(Debug, Clone)]
pub enum Error {
    Panic(ObjectText),
    NotFound(ObjectText),
    EvalError(ObjectText),
    ParseError(ObjectText),
    NamesLengthMismatch(ObjectText),
    ExpectedNull(ObjectText),
    ExpectedSymbol(ObjectText),
    ExpectedPairlist(ObjectText),
    ExpectedFunction(ObjectText),
    ExpectedEnvironment(ObjectText),
    ExpectedPromise(ObjectText),
    ExpectedLanguage(ObjectText),
    ExpectedSpecial(ObjectText),
    ExpectedBuiltin(ObjectText),
    ExpectedRstr(ObjectText),
    ExpectedLogical(ObjectText),
    ExpectedInteger(ObjectText),
    ExpectedReal(ObjectText),
    ExpectedComplex(ObjectText),
    ExpectedString(ObjectText),
    ExpectedDot(ObjectText),
    ExpectedAny(ObjectText),
    ExpectedList(ObjectText),
    ExpectedExpression(ObjectText),
    ExpectedBytecode(ObjectText),
    ExpectedExternalPtr(ObjectText),
    ExpectedWeakRef(ObjectText),
    ExpectedRaw(ObjectText),
    ExpectedS4(ObjectText),
    ExpectedPrimitive(ObjectText),
    ExpectedScalar(ObjectText),
    ExpectedVector(ObjectText),
    ExpectedMatrix(ObjectText),
    ExpectedMatrix3D(ObjectText),
    ExpectedNumeric(ObjectText),
    ExpectedAltrep(ObjectText),
    ExpectedDataframe(ObjectText),
    OutOfRange(ObjectText),
    MustNotBeNA(ObjectText),
    ExpectedWholeNumber(ObjectText, ConversionError),
    ExpectedNonZeroLength(ObjectText),
    OutOfLimits(ObjectText),
    TypeMismatch(ObjectText),
    NamespaceNotFound(ObjectText),
    NoGraphicsDevices(ObjectText),
    ExpectedExternalPtrType(ObjectText, String),
    ExpectedExternalNonNullPtr(ObjectText),
    ExpectedExternalPtrReference,
    Other(String),
}

/// The text of a conversion error, as shown to R users.
pub open spec fn conversion_text(e: ConversionError) -> Seq<char> {
    match e {
        ConversionError::Underflow => "underflow"@,
        ConversionError::Overflow => "overflow"@,
        ConversionError::NotIntegerish => "not a whole number"@,
    }
}

/// The message of an error, as shown to R users.
pub open spec fn error_text(e: Error) -> Seq<char> {
    match e {
        Error::Panic(o) => "Panic detected "@ + o.debug@ + "."@,
        Error::NotFound(o) => "Not found. "@ + o.debug@,
        Error::EvalError(o) => "Evaluation error in "@ + o.debug@ + "."@,
        Error::ParseError(o) => "Parse error in "@ + o.debug@ + "."@,
        Error::NamesLengthMismatch(o) => "Length of names does not match vector. "@ + o.debug@,
        Error::OutOfLimits(o) => "The value is too big: "@ + o.debug@,
        Error::NamespaceNotFound(o) => "Namespace "@ + o.debug@ + " not found"@,
        Error::ExpectedExternalNonNullPtr(o) => "expected non-null pointer in externalptr, instead "@ + o.debug@,
        Error::ExpectedNull(o) => "Expected Null got "@ + rtype_text(o.rtype),
        Error::ExpectedSymbol(o) => "Expected Symbol got "@ + rtype_text(o.rtype),
        Error::ExpectedPairlist(o) => "Expected Pairlist got "@ + rtype_text(o.rtype),
        Error::ExpectedFunction(o) => "Expected Function got "@ + rtype_text(o.rtype),
        Error::ExpectedEnvironment(o) => "Expected Environment got "@ + rtype_text(o.rtype),
        Error::ExpectedPromise(o) => "Expected Promise got "@ + rtype_text(o.rtype),
        Error::ExpectedLanguage(o) => "Expected Language got "@ + rtype_text(o.rtype),
        Error::ExpectedSpecial(o) => "Expected Special got "@ + rtype_text(o.rtype),
        Error::ExpectedBuiltin(o) => "Expected Builtin got "@ + rtype_text(o.rtype),
        Error::ExpectedRstr(o) => "Expected Rstr got "@ + rtype_text(o.rtype),
        Error::ExpectedLogical(o) => "Expected Logicals got "@ + rtype_text(o.rtype),
        Error::ExpectedInteger(o) => "Expected Integers got "@ + rtype_text(o.rtype),
        Error::ExpectedReal(o) => "Expected Doubles got "@ + rtype_text(o.rtype),
        Error::ExpectedComplex(o) => "Expected Complexes got "@ + rtype_text(o.rtype),
        Error::ExpectedString(o) => "Expected Strings got "@ + rtype_text(o.rtype),
        Error::ExpectedDot(o) => "Expected Dot got "@ + rtype_text(o.rtype),
        Error::ExpectedAny(o) => "Expected Any got "@ + rtype_text(o.rtype),
        Error::ExpectedList(o) => "Expected List got "@ + rtype_text(o.rtype),
        Error::ExpectedExpression(o) => "Expected Expression got "@ + rtype_text(o.rtype),
        Error::ExpectedBytecode(o) => "Expected Bytecode got "@ + rtype_text(o.rtype),
        Error::ExpectedExternalPtr(o) => "Expected ExternalPtr got "@ + rtype_text(o.rtype),
        Error::ExpectedWeakRef(o) => "Expected WeakRef got "@ + rtype_text(o.rtype),
        Error::ExpectedRaw(o) => "Expected Raw got "@ + rtype_text(o.rtype),
        Error::ExpectedS4(o) => "Expected S4 got "@ + rtype_text(o.rtype),
        Error::ExpectedPrimitive(o) => "Expected Primitive got "@ + rtype_text(o.rtype),
        Error::ExpectedScalar(o) => "Expected Scalar, got "@ + rtype_text(o.rtype),
        Error::ExpectedVector(o) => "Expected Vector, got "@ + rtype_text(o.rtype),
        Error::ExpectedMatrix(o) => "Expected Matrix, got "@ + rtype_text(o.rtype),
        Error::ExpectedMatrix3D(o) => "Expected Matrix3D, got "@ + rtype_text(o.rtype),
        Error::ExpectedNumeric(o) => "Expected Numeric, got "@ + rtype_text(o.rtype),
        Error::ExpectedAltrep(o) => "Expected Altrep, got "@ + rtype_text(o.rtype),
        Error::ExpectedDataframe(o) => "Expected Dataframe, got "@ + rtype_text(o.rtype),
        Error::OutOfRange(_) => "Out of range."@,
        Error::MustNotBeNA(_) => "Must not be NA."@,
        Error::ExpectedNonZeroLength(_) => "Expected non zero length"@,
        Error::TypeMismatch(_) => "Type mismatch"@,
        Error::NoGraphicsDevices(_) => "No graphics devices active."@,
        Error::ExpectedWholeNumber(o, c) => "Failed to convert a float to a whole number: "@
            + conversion_text(c) + ". Actual value received: "@ + o.debug@,
        Error::ExpectedExternalPtrType(_, name) => "Incorrect external pointer type "@ + name@,
        Error::ExpectedExternalPtrReference => "It is only possible to return a reference to self."@,
        Error::Other(s) => s@,
    }
}

/// `head`, then `tail`.
fn joined2(head: &str, tail: &str) -> (r: String)
    ensures
        r@ == head@ + tail@,
{
    let mut r = String::from_str(head);
    r.append(tail);
    r
}

/// `head`, then `mid`, then `tail`.
fn joined3(head: &str, mid: &str, tail: &str) -> (r: String)
    ensures
        r@ == head@ + mid@ + tail@,
{
    let mut r = String::from_str(head);
    r.append(mid);
    r.append(tail);
    r
}

impl Error {
    /// The message shown to R users.
    pub fn to_string(&self) -> (r: String)
        ensures
            r@ == error_text(*self),
    {
        match self {
            Error::Panic(o) => joined3("Panic detected ", o.debug.as_str(), "."),
            Error::NotFound(o) => joined2("Not found. ", o.debug.as_str()),
            Error::EvalError(o) => joined3("Evaluation error in ", o.debug.as_str(), "."),
            Error::ParseError(o) => joined3("Parse error in ", o.debug.as_str(), "."),
            Error::NamesLengthMismatch(o) => joined2("Length of names does not match vector. ", o.debug.as_str()),
            Error::OutOfLimits(o) => joined2("The value is too big: ", o.debug.as_str()),
            Error::NamespaceNotFound(o) => joined3("Namespace ", o.debug.as_str(), " not found"),
            Error::ExpectedExternalNonNullPtr(o) => joined2("expected non-null pointer in externalptr, instead ", o.debug.as_str()),
            Error::ExpectedNull(o) => joined2("Expected Null got ", o.rtype.name()),
            Error::ExpectedSymbol(o) => joined2("Expected Symbol got ", o.rtype.name()),
            Error::ExpectedPairlist(o) => joined2("Expected Pairlist got ", o.rtype.name()),
            Error::ExpectedFunction(o) => joined2("Expected Function got ", o.rtype.name()),
            Error::ExpectedEnvironment(o) => joined2("Expected Environment got ", o.rtype.name()),
            Error::ExpectedPromise(o) => joined2("Expected Promise got ", o.rtype.name()),
            Error::ExpectedLanguage(o) => joined2("Expected Language got ", o.rtype.name()),
            Error::ExpectedSpecial(o) => joined2("Expected Special got ", o.rtype.name()),
            Error::ExpectedBuiltin(o) => joined2("Expected Builtin got ", o.rtype.name()),
            Error::ExpectedRstr(o) => joined2("Expected Rstr got ", o.rtype.name()),
            Error::ExpectedLogical(o) => joined2("Expected Logicals got ", o.rtype.name()),
            Error::ExpectedInteger(o) => joined2("Expected Integers got ", o.rtype.name()),
            Error::ExpectedReal(o) => joined2("Expected Doubles got ", o.rtype.name()),
            Error::ExpectedComplex(o) => joined2("Expected Complexes got ", o.rtype.name()),
            Error::ExpectedString(o) => joined2("Expected Strings got ", o.rtype.name()),
            Error::ExpectedDot(o) => joined2("Expected Dot got ", o.rtype.name()),
            Error::ExpectedAny(o) => joined2("Expected Any got ", o.rtype.name()),
            Error::ExpectedList(o) => joined2("Expected List got ", o.rtype.name()),
            Error::ExpectedExpression(o) => joined2("Expected Expression got ", o.rtype.name()),
            Error::ExpectedBytecode(o) => joined2("Expected Bytecode got ", o.rtype.name()),
            Error::ExpectedExternalPtr(o) => joined2("Expected ExternalPtr got ", o.rtype.name()),
            Error::ExpectedWeakRef(o) => joined2("Expected WeakRef got ", o.rtype.name()),
            Error::ExpectedRaw(o) => joined2("Expected Raw got ", o.rtype.name()),
            Error::ExpectedS4(o) => joined2("Expected S4 got ", o.rtype.name()),
            Error::ExpectedPrimitive(o) => joined2("Expected Primitive got ", o.rtype.name()),
            Error::ExpectedScalar(o) => joined2("Expected Scalar, got ", o.rtype.name()),
            Error::ExpectedVector(o) => joined2("Expected Vector, got ", o.rtype.name()),
            Error::ExpectedMatrix(o) => joined2("Expected Matrix, got ", o.rtype.name()),
            Error::ExpectedMatrix3D(o) => joined2("Expected Matrix3D, got ", o.rtype.name()),
            Error::ExpectedNumeric(o) => joined2("Expected Numeric, got ", o.rtype.name()),
            Error::ExpectedAltrep(o) => joined2("Expected Altrep, got ", o.rtype.name()),
            Error::ExpectedDataframe(o) => joined2("Expected Dataframe, got ", o.rtype.name()),
            Error::OutOfRange(_) => String::from_str("Out of range."),
            Error::MustNotBeNA(_) => String::from_str("Must not be NA."),
            Error::ExpectedNonZeroLength(_) => String::from_str("Expected non zero length"),
            Error::TypeMismatch(_) => String::from_str("Type mismatch"),
            Error::NoGraphicsDevices(_) => String::from_str("No graphics devices active."),
            Error::ExpectedWholeNumber(o, c) => {
                let mut r = joined3(
                    "Failed to convert a float to a whole number: ",
                    c.message(),
                    ". Actual value received: ",
                );
                r.append(o.debug.as_str());
                r
            },
            Error::ExpectedExternalPtrType(_, name) => joined2(
                "Incorrect external pointer type ",
                name.as_str(),
            ),
            Error::ExpectedExternalPtrReference => String::from_str(
                "It is only possible to return a reference to self.",
            ),
            Error::Other(s) => s.clone(),
        }
    }
}

impl From<String> for Error {
    /// An error with the given message.
    fn from(err: String) -> (r: Error) {
        Error::Other(err)
    }
}

impl vstd::std_specs::convert::FromSpecImpl<String> for Error {
    open spec fn obeys_from_spec() -> bool {
        true
    }

    open spec fn from_spec(err: String) -> Error {
        Error::Other(err)
    }
}

impl From<&str> for Error {
    /// An error with a copy of the given message.
    fn from(err: &str) -> (r: Error)
        ensures
            r matches Error::Other(m) && m@ == err@,
    {
        Error::Other(String::from_str(err))
    }
}

/// A `String` has no spec-level constructor from its characters, so the
/// conversion from `&str` is stated on `from` itself rather than here.
impl vstd::std_specs::convert::FromSpecImpl<&str> for Error {
    open spec fn obeys_from_spec() -> bool {
        false
    }

    open spec fn from_spec(err: &str) -> Error {
        Error::ExpectedExternalPtrReference
    }
}

} // verus!
