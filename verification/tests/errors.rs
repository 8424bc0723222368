use extendr_api::conversions::try_into_int::ConversionError;
use extendr_api::error::{Error, ObjectText};
use extendr_api::rtype::Rtype;

fn obj(debug: &str, rtype: Rtype) -> ObjectText {
    ObjectText { debug: debug.to_string(), rtype }
}

#[test]
fn messages_with_the_object() {
    let o = obj("[1, 2]", Rtype::Integers);
    assert_eq!(Error::Panic(o.clone()).to_string(), "Panic detected [1, 2].");
    assert_eq!(Error::NotFound(o.clone()).to_string(), "Not found. [1, 2]");
    assert_eq!(Error::EvalError(o.clone()).to_string(), "Evaluation error in [1, 2].");
    assert_eq!(Error::ParseError(o.clone()).to_string(), "Parse error in [1, 2].");
    assert_eq!(
        Error::NamesLengthMismatch(o.clone()).to_string(),
        "Length of names does not match vector. [1, 2]"
    );
    assert_eq!(Error::OutOfLimits(o.clone()).to_string(), "The value is too big: [1, 2]");
    assert_eq!(Error::NamespaceNotFound(obj("\"basex\"", Rtype::Strings)).to_string(), "Namespace \"basex\" not found");
    assert_eq!(
        Error::ExpectedExternalNonNullPtr(o).to_string(),
        "expected non-null pointer in externalptr, instead [1, 2]"
    );
}

#[test]
fn messages_with_the_type() {
    let o = obj("TRUE", Rtype::Logicals);
    assert_eq!(Error::ExpectedNull(o.clone()).to_string(), "Expected Null got Logicals");
    assert_eq!(Error::ExpectedInteger(o.clone()).to_string(), "Expected Integers got Logicals");
    assert_eq!(Error::ExpectedReal(o.clone()).to_string(), "Expected Doubles got Logicals");
    assert_eq!(Error::ExpectedString(o.clone()).to_string(), "Expected Strings got Logicals");
    assert_eq!(Error::ExpectedScalar(o.clone()).to_string(), "Expected Scalar, got Logicals");
    assert_eq!(Error::ExpectedDataframe(o).to_string(), "Expected Dataframe, got Logicals");
}

#[test]
fn fixed_messages() {
    let o = obj("NA", Rtype::Logicals);
    assert_eq!(Error::OutOfRange(o.clone()).to_string(), "Out of range.");
    assert_eq!(Error::MustNotBeNA(o.clone()).to_string(), "Must not be NA.");
    assert_eq!(Error::ExpectedNonZeroLength(o.clone()).to_string(), "Expected non zero length");
    assert_eq!(Error::TypeMismatch(o.clone()).to_string(), "Type mismatch");
    assert_eq!(Error::NoGraphicsDevices(o.clone()).to_string(), "No graphics devices active.");
    assert_eq!(
        Error::ExpectedExternalPtrReference.to_string(),
        "It is only possible to return a reference to self."
    );
    assert_eq!(
        Error::ExpectedExternalPtrType(o, "MyType".to_string()).to_string(),
        "Incorrect external pointer type MyType"
    );
    assert_eq!(Error::Other("custom".to_string()).to_string(), "custom");
}

#[test]
fn whole_number_message() {
    let e = Error::ExpectedWholeNumber(obj("1.5", Rtype::Doubles), ConversionError::NotIntegerish);
    assert_eq!(
        e.to_string(),
        "Failed to convert a float to a whole number: not a whole number. Actual value received: 1.5"
    );
    let e = Error::ExpectedWholeNumber(obj("1e300", Rtype::Doubles), ConversionError::Overflow);
    assert_eq!(
        e.to_string(),
        "Failed to convert a float to a whole number: overflow. Actual value received: 1e300"
    );
}

#[test]
fn error_from_message() {
    let e = Error::from("boom".to_string());
    assert_eq!(e.to_string(), "boom");
    assert!(matches!(e, Error::Other(_)));
}

#[test]
fn error_from_str() {
    let e = Error::from("bad input");
    assert_eq!(e.to_string(), "bad input");
}
