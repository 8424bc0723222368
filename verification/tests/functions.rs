use extendr_api::cnd::call_label;
use extendr_api::functions::{find_namespaced_function, FunctionPath};

fn path(name: &str) -> Option<(String, Option<String>)> {
    match find_namespaced_function(name) {
        Some(FunctionPath::Global(f)) => Some((f, None)),
        Some(FunctionPath::Namespaced(ns, f)) => Some((ns, Some(f))),
        None => None,
    }
}

#[test]
fn namespaced_names() {
    assert_eq!(path("+"), Some(("+".to_string(), None)));
    assert_eq!(path("ls"), Some(("ls".to_string(), None)));
    assert_eq!(path("base::ls"), Some(("base".to_string(), Some("ls".to_string()))));
    assert_eq!(path("basex::ls"), Some(("basex".to_string(), Some("ls".to_string()))));
    assert_eq!(path("a::b::c"), None);
    assert_eq!(path("::"), Some(("".to_string(), Some("".to_string()))));
    assert_eq!(path("a:::b"), Some(("a".to_string(), Some(":b".to_string()))));
    assert_eq!(path("a::::b"), None);
    assert_eq!(path(""), Some(("".to_string(), None)));
    assert_eq!(path("é::ü"), Some(("é".to_string(), Some("ü".to_string()))));
}

#[test]
fn call_labels() {
    assert_eq!(call_label(Some("my_function")), Some("`my_function()`".to_string()));
    assert_eq!(call_label(None), None);
}
