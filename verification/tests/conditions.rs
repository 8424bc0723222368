use extendr_api::cnd;
use extendr_api::conditions::{
    format_cnd_message_styled, format_warn_message_styled, Condition, ConditionBuilder,
    ConditionKind,
};

#[test]
fn test_format_cnd_message_no_body() {
    let msg = cnd::format_cnd_message("something went wrong", &[]);
    assert_eq!(msg, "\n! something went wrong");
}

#[test]
fn test_format_cnd_message_with_body() {
    let msg = cnd::format_cnd_message("something went wrong", &["detail 1", "detail 2"]);
    assert_eq!(
        msg,
        "\n! something went wrong\n\u{2022} detail 1\n\u{2022} detail 2"
    );
}

#[test]
fn mod_test_format_cnd_message_no_body() {
    let msg = extendr_api::conditions::format_cnd_message("something went wrong", &[]);
    assert!(msg.contains("something went wrong"));
}

#[test]
fn mod_test_format_cnd_message_with_body() {
    let msg = extendr_api::conditions::format_cnd_message(
        "something went wrong",
        &["detail 1", "detail 2"],
    );
    assert!(msg.contains("something went wrong"));
    assert!(msg.contains("detail 1"));
    assert!(msg.contains("detail 2"));
}

#[test]
fn test_cnd() {
    let cnd: Condition<()> = ConditionBuilder::new()
        .set_kind(ConditionKind::Message)
        .set_message(&["this is a custom message"])
        .set_class(&["class1", "class2"])
        .build();

    let class = cnd.clone().r_class();
    assert_eq!(
        class,
        vec!["class1", "class2", "simpleMessage", "message", "condition"]
    );
}

#[test]
fn styled_messages() {
    let plain = format_cnd_message_styled("oops", &["a"], false);
    assert_eq!(plain, "\n! oops\n\u{2022} a");
    let colored = format_cnd_message_styled("oops", &["a"], true);
    assert_eq!(colored, "\n\x1b[33m!\x1b[0m oops\n\x1b[36m\u{2022}\x1b[0m a");
    let warn = format_warn_message_styled("careful", &["x", "y"], false);
    assert_eq!(warn, "careful\n\u{2022} x\n\u{2022} y");
    assert_eq!(format_warn_message_styled("careful", &[], true), "careful");
}

#[test]
fn condition_class_roundtrip() {
    let cnd: Condition<()> = ConditionBuilder::new()
        .set_kind(ConditionKind::Error)
        .set_message(&["bad"])
        .set_class(&["my_error"])
        .build();
    let class = cnd.r_class();
    let back = Condition::from_parts(vec!["bad".to_string()], &class, None).unwrap();
    assert_eq!(back, cnd);
}

#[test]
fn condition_without_own_classes() {
    let class: Vec<String> = vec!["simpleWarning".into(), "warning".into(), "condition".into()];
    let c: Condition<()> = Condition::from_parts(vec![], &class, None).unwrap();
    assert_eq!(c.kind, ConditionKind::Warning);
    assert_eq!(c.class, None);
}

#[test]
fn not_a_condition() {
    let class: Vec<String> = vec!["simpleError".into(), "error".into()];
    let r: Result<Condition<()>, String> = Condition::from_parts(vec![], &class, None);
    assert_eq!(r, Err("object does not inherit from `condition`".to_string()));
}

#[test]
fn ambiguous_condition() {
    let class: Vec<String> = vec![
        "message".into(),
        "error".into(),
        "warning".into(),
        "condition".into(),
    ];
    let r: Result<Condition<()>, String> = Condition::from_parts(vec![], &class, None);
    assert_eq!(
        r,
        Err("ambiguous condition: inherits from multiple base kinds: error, warning, message".to_string())
    );
}

#[test]
fn plain_condition_kind() {
    let class: Vec<String> = vec!["custom".into(), "condition".into()];
    let c: Condition<()> = Condition::from_parts(vec!["m".into()], &class, Some(())).unwrap();
    assert_eq!(c.kind, ConditionKind::Condition);
    assert_eq!(c.class, Some(vec!["custom".to_string()]));
    assert_eq!(c.call, Some(()));
}
