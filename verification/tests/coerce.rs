use extendr_api::conversions::coerce::{
    attempt_text, coerce_step, coercion_failure, primitive_targets, Coerce, CoerceStep,
};
use extendr_api::error::Error;
use extendr_api::rtype::{Rtype, INTSXP, LGLSXP, RAWSXP, REALSXP};

#[test]
fn targets_in_order() {
    let t = primitive_targets();
    assert_eq!(t, [(LGLSXP, "logical"), (INTSXP, "integer"), (REALSXP, "double"), (RAWSXP, "raw")]);
}

#[test]
fn failure_lists_attempts() {
    let attempts = vec![
        attempt_text("original", "Expected Integers got Strings"),
        attempt_text("logical", "Expected Integers got Logicals"),
    ];
    assert_eq!(attempts[0], "original: Expected Integers got Strings");
    match coercion_failure(Rtype::Strings, &attempts) {
        Error::Other(m) => assert_eq!(
            m,
            "Could not coerce Strings into target type; attempts failed: original: Expected Integers got Strings, logical: Expected Integers got Logicals"
        ),
        _ => panic!("expected Other"),
    }
    match coercion_failure(Rtype::Null, &Vec::new()) {
        Error::Other(m) => assert_eq!(m, "Could not coerce Null into target type; attempts failed: "),
        _ => panic!("expected Other"),
    }
}

#[test]
fn coerce_keeps_value_and_backing() {
    let c = Coerce::new(7i32, "backing");
    assert_eq!(*c.value(), 7);
    assert_eq!(*c.backing(), "backing");
    assert_eq!(c.into_parts(), (7, "backing"));
    assert_eq!(Coerce::new(vec![1u8, 2, 255], 0usize).into_inner(), vec![1, 2, 255]);
}

fn run_coercion(outcomes: &[Result<(), String>]) -> (Vec<CoerceStep>, Vec<String>) {
    let mut attempts: Vec<String> = Vec::new();
    let mut steps = Vec::new();
    for o in outcomes {
        let s = coerce_step(Rtype::Strings, &mut attempts, o.clone());
        let stop = !matches!(s, CoerceStep::Coerce(_));
        steps.push(s);
        if stop {
            break;
        }
    }
    (steps, attempts)
}

#[test]
fn coercion_succeeds_on_first_attempt() {
    let (steps, attempts) = run_coercion(&[Ok(())]);
    assert!(matches!(steps[..], [CoerceStep::Done]));
    assert!(attempts.is_empty());
}

#[test]
fn coercion_walks_the_targets_in_order() {
    let e = || Err("no".to_string());
    let (steps, attempts) = run_coercion(&[e(), e(), Ok(())]);
    assert!(matches!(steps[0], CoerceStep::Coerce(c) if c == LGLSXP));
    assert!(matches!(steps[1], CoerceStep::Coerce(c) if c == INTSXP));
    assert!(matches!(steps[2], CoerceStep::Done));
    assert_eq!(attempts, vec!["original: no".to_string(), "logical: no".to_string()]);
}

#[test]
fn coercion_fails_after_every_target() {
    let e = || Err("x".to_string());
    let (steps, attempts) = run_coercion(&[e(), e(), e(), e(), e()]);
    assert_eq!(steps.len(), 5);
    assert!(matches!(steps[2], CoerceStep::Coerce(c) if c == REALSXP));
    assert!(matches!(steps[3], CoerceStep::Coerce(c) if c == RAWSXP));
    assert_eq!(attempts.len(), 5);
    match &steps[4] {
        CoerceStep::Fail(Error::Other(m)) => assert_eq!(
            m,
            "Could not coerce Strings into target type; attempts failed: original: x, logical: x, integer: x, double: x, raw: x"
        ),
        _ => panic!("expected a failure"),
    }
}

#[test]
fn coerce_derefs_to_value() {
    let c = Coerce::new(vec![1, 2], ());
    assert_eq!(c.len(), 2);
}
