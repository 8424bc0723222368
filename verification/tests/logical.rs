use extendr_api::logical::Bool;
use extendr_api::na::CanBeNA;

#[test]
fn bool_conversions() {
    assert!(Bool::from_bool(true).is_true());
    assert!(Bool::from_bool(false).is_false());
    assert!(Bool(i32::MIN).to_bool());
    assert!(!Bool(i32::MIN).is_true());
    assert!(!Bool(i32::MIN).is_false());
    assert!(Bool::from_bool(true) == Bool(1));
    assert!(!Bool(0).to_bool());
}

#[test]
fn integer_na() {
    assert!(<i32 as CanBeNA>::na().is_na());
    assert_eq!(<i32 as CanBeNA>::na(), i32::MIN);
    assert!(!0i32.is_na());
}

#[test]
fn bool_debug_text() {
    assert_eq!(Bool(0).debug_text(), "FALSE");
    assert_eq!(Bool(1).debug_text(), "TRUE");
    assert_eq!(Bool(i32::MIN).debug_text(), "NA_LOGICAL");
    assert_eq!(Bool(2).debug_text(), "Bool(2)");
    assert_eq!(Bool(-12).debug_text(), "Bool(-12)");
    assert_eq!(Bool(i32::MAX).debug_text(), "Bool(2147483647)");
    assert_eq!(Bool(i32::MIN + 1).debug_text(), "Bool(-2147483647)");
}

#[test]
fn bool_from_impls() {
    assert!(Bool::from(7) == Bool(7));
    assert!(Bool::from(true) == Bool(1));
    assert!(Bool::from(false) == Bool(0));
    assert!(bool::from(Bool(i32::MIN)));
    assert!(!bool::from(&Bool(0)));
}
