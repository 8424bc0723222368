use extendr_api::metadata::{Arg, Func, Impl, Metadata};

fn func(r_name: &'static str, mod_name: &'static str, args: Vec<Arg>, ret: &'static str) -> Func {
    Func {
        doc: "",
        rust_name: r_name,
        mod_name,
        r_name,
        args,
        return_type: ret,
        func_ptr: 0,
        hidden: false,
    }
}

#[test]
fn wrappers_with_symbols() {
    let meta = Metadata {
        name: "mymod",
        functions: vec![
            Func {
                doc: "Adds one.\n@export",
                ..func(
                    "add_one",
                    "add_one",
                    vec![Arg { name: "x", arg_type: "i32", default: None }],
                    "i32",
                )
            },
            func("_hidden_name", "hidden_name", vec![], "()"),
            Func { hidden: true, ..func("secret", "secret", vec![], "()") },
        ],
        impls: vec![],
    };
    let code = meta.make_r_wrappers(true, "pkg").unwrap();
    let expected = "# Generated by extendr: Do not edit by hand\n\
#\n\
# This file was created with the following call:\n\
#   .Call(\"wrap__make_mymod_wrappers\", use_symbols = TRUE, package_name = \"pkg\")\n\
\n\
#' @usage NULL\n\
#' @useDynLib pkg, .registration = TRUE\n\
NULL\n\
\n\
#'Adds one.\n\
#'@export\n\
add_one <- function(x) .Call(wrap__add_one, x)\n\
\n\
`_hidden_name` <- function() invisible(.Call(wrap__hidden_name))\n\
\n";
    assert_eq!(code, expected);
}

#[test]
fn wrappers_without_symbols_and_class() {
    let person = Impl {
        doc: "A person.\n@export",
        name: "Person",
        methods: vec![
            func(
                "new",
                "new",
                vec![Arg { name: "name", arg_type: "&str", default: Some("\"fred\"") }],
                "Self",
            ),
            func(
                "set_name",
                "set_name",
                vec![
                    Arg { name: "self", arg_type: "&mut Self", default: None },
                    Arg { name: "r#name", arg_type: "&str", default: None },
                ],
                "()",
            ),
        ],
        methods_only: false,
    };
    let meta = Metadata { name: "classes", functions: vec![], impls: vec![person] };
    let code = meta.make_r_wrappers(false, "classes").unwrap();
    let expected = "# Generated by extendr: Do not edit by hand\n\
#\n\
# This file was created with the following call:\n\
#   .Call(\"wrap__make_classes_wrappers\", use_symbols = FALSE, package_name = \"classes\")\n\
\n\
#'A person.\n\
#'@export\n\
Person <- new.env(parent = emptyenv())\n\
\n\
Person$new <- function(name = \"fred\") .Call(\"wrap__Person__new\", name, PACKAGE = \"classes\")\n\
\n\
Person$set_name <- function(name) invisible(.Call(\"wrap__Person__set_name\", self, name, PACKAGE = \"classes\"))\n\
\n\
#' @rdname Person\n\
#' @usage NULL\n\
#' @export\n\
`$.Person` <- function (self, name) { func <- Person[[name]]; environment(func) <- environment(); func }\n\
\n\
#' @export\n\
`[[.Person` <- `$.Person`\n\
\n";
    assert_eq!(code, expected);
}

#[test]
fn methods_only_class_has_no_environment() {
    let imp = Impl {
        doc: "",
        name: "_Thing",
        methods: vec![func("get", "get", vec![Arg { name: "self", arg_type: "&Self", default: None }], "i32")],
        methods_only: true,
    };
    let meta = Metadata { name: "m", functions: vec![], impls: vec![imp] };
    let code = meta.make_r_wrappers(true, "p").unwrap();
    assert!(code.ends_with("`_Thing`$get <- function() .Call(wrap___Thing__get, self)\n\n"));
    assert!(!code.contains("new.env"));
}
