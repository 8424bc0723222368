//! Module metadata, as the module registration macro describes an R
//! package's exported functions and classes, and the generation of the R
//! wrapper code that calls them.
use vstd::prelude::*;
use crate::text::{contains_seq, contains_str, join_str, joined, push_char, starts_with_seq, str_eq};

verus! {

/// Metadata function argument.
#[derive(Debug, PartialEq)]
pub struct Arg {
    pub name: &'static str,
    pub arg_type: &'static str,
    pub default: Option<&'static str>,
}

/// Metadata function. `func_ptr` is the address of the wrapped function.
#[derive(Debug, PartialEq)]
pub struct Func {
    pub doc: &'static str,
    pub rust_name: &'static str,
    pub mod_name: &'static str,
    pub r_name: &'static str,
    pub args: Vec<Arg>,
    pub return_type: &'static str,
    pub func_ptr: usize,
    pub hidden: bool,
}

/// Metadata Impl.
#[derive(Debug, PartialEq)]
pub struct Impl {
    pub doc: &'static str,
    pub name: &'static str,
    pub methods: Vec<Func>,
    pub methods_only: bool,
}

/// Module metadata.
#[derive(Debug, PartialEq)]
pub struct Metadata {
    pub name: &'static str,
    pub functions: Vec<Func>,
    pub impls: Vec<Impl>,
}

/// An argument as R code names it.
struct RArg {
    name: String,
    default: Option<&'static str>,
}

// ---------------------------------------------------------------------------
// What the generated R code is.
/// A name made usable in R: a leading `_` gets the name wrapped in
/// backticks, and a leading `r#` (a raw Rust identifier) is removed.
pub open spec fn sanitized(name: Seq<char>) -> Seq<char> {
    if name.len() > 0 && name[0] == '_' {
        seq!['`'] + name + seq!['`']
    } else if name.len() >= 2 && name[0] == 'r' && name[1] == '#' {
        name.subrange(2, name.len() as int)
    } else {
        name
    }
}

/// A documentation text with every line break followed by `#'`.
pub open spec fn doc_body(doc: Seq<char>) -> Seq<char>
    decreases doc.len(),
{
    if doc.len() == 0 {
        Seq::empty()
    } else {
        doc_body(doc.drop_last()) + if doc.last() == '\n' {
            seq!['\n', '#', '\'']
        } else {
            seq![doc.last()]
        }
    }
}

/// The roxygen comment that carries a documentation text: nothing for an
/// empty text, else `#'`, the text with `#'` after each line break, and a
/// line break.
pub open spec fn doc_text(doc: Seq<char>) -> Seq<char> {
    if doc.len() == 0 {
        Seq::empty()
    } else {
        seq!['#', '\''] + doc_body(doc) + seq!['\n']
    }
}

/// An argument as it is passed on in a call: its sanitized name.
pub open spec fn actual_arg(a: Arg) -> Seq<char> {
    sanitized(a.name@)
}

/// An argument as it is declared in a function's formals: its sanitized
/// name, with ` = default` where it has a default.
pub open spec fn formal_arg(a: Arg) -> Seq<char> {
    match a.default {
        Some(d) => sanitized(a.name@) + " = "@ + d@,
        None => sanitized(a.name@),
    }
}

pub open spec fn actual_args(args: Seq<Arg>) -> Seq<char> {
    joined(Seq::new(args.len(), |i: int| actual_arg(args[i])), ", "@)
}

pub open spec fn formal_args(args: Seq<Arg>) -> Seq<char> {
    joined(Seq::new(args.len(), |i: int| formal_arg(args[i])), ", "@)
}

/// Whether an argument is the receiver `self`.
pub open spec fn is_self_arg(a: Arg) -> bool {
    sanitized(a.name@) == "self"@
}

/// The arguments after the leading `self` arguments.
pub open spec fn skip_self(args: Seq<Arg>) -> Seq<Arg>
    decreases args.len(),
{
    if args.len() > 0 && is_self_arg(args[0]) {
        skip_self(args.drop_first())
    } else {
        args
    }
}

/// Whether a function returns the unit type, so that R makes its result
/// invisible.
pub open spec fn returns_unit(f: Func) -> bool {
    f.return_type@ == "()"@
}

/// The head of a wrapper: `<lhs> <- function(<formals>) .Call(` or, for a
/// function without result, `... invisible(.Call(`.
pub open spec fn wrapper_head(lhs: Seq<char>, formals: Seq<char>, unit: bool) -> Seq<char> {
    lhs + " <- function("@ + formals + ")"@ + if unit {
        " invisible(.Call("@
    } else {
        " .Call("@
    }
}

/// The symbol of the native routine, bare where R has the package's
/// registered symbols, else quoted.
pub open spec fn routine(name: Seq<char>, use_symbols: bool) -> Seq<char> {
    if use_symbols {
        "wrap__"@ + name
    } else {
        "\"wrap__"@ + name + "\""@
    }
}

/// The tail of a wrapper: the actual arguments, the package where symbols
/// are not used, the closing brackets and an empty line.
pub open spec fn wrapper_tail(
    actuals: Seq<char>,
    has_args: bool,
    package_name: Seq<char>,
    use_symbols: bool,
    unit: bool,
) -> Seq<char> {
    (if has_args {
        ", "@ + actuals
    } else {
        Seq::empty()
    }) + (if !use_symbols {
        ", PACKAGE = \""@ + package_name + "\""@
    } else {
        Seq::empty()
    }) + if unit {
        "))\n\n"@
    } else {
        ")\n\n"@
    }
}

/// The R wrapper of an exported function; nothing for a hidden one.
pub open spec fn function_wrapper(f: Func, package_name: Seq<char>, use_symbols: bool) -> Seq<char> {
    if f.hidden {
        Seq::empty()
    } else {
        doc_text(f.doc@) + wrapper_head(
            sanitized(f.r_name@),
            formal_args(f.args@),
            returns_unit(f),
        ) + routine(f.mod_name@, use_symbols) + wrapper_tail(
            actual_args(f.args@),
            f.args@.len() > 0,
            package_name,
            use_symbols,
            returns_unit(f),
        )
    }
}

/// The R wrapper of a method of class `class_name`: its formals leave out
/// the leading `self`, which the environment supplies; nothing for a hidden
/// method.
pub open spec fn method_wrapper(
    f: Func,
    package_name: Seq<char>,
    use_symbols: bool,
    class_name: Seq<char>,
) -> Seq<char> {
    if f.hidden {
        Seq::empty()
    } else {
        wrapper_head(
            sanitized(class_name) + "$"@ + sanitized(f.r_name@),
            formal_args(skip_self(f.args@)),
            returns_unit(f),
        ) + routine(class_name + "__"@ + f.mod_name@, use_symbols) + wrapper_tail(
            actual_args(f.args@),
            f.args@.len() > 0,
            package_name,
            use_symbols,
            returns_unit(f),
        )
    }
}

/// The wrappers of a sequence of methods, one after the other.
pub open spec fn methods_text(
    fs: Seq<Func>,
    package_name: Seq<char>,
    use_symbols: bool,
    class_name: Seq<char>,
) -> Seq<char>
    decreases fs.len(),
{
    if fs.len() == 0 {
        Seq::empty()
    } else {
        methods_text(fs.drop_last(), package_name, use_symbols, class_name) + method_wrapper(
            fs.last(),
            package_name,
            use_symbols,
            class_name,
        )
    }
}

/// The wrappers of a sequence of functions, one after the other.
pub open spec fn functions_text(fs: Seq<Func>, package_name: Seq<char>, use_symbols: bool) -> Seq<
    char,
>
    decreases fs.len(),
{
    if fs.len() == 0 {
        Seq::empty()
    } else {
        functions_text(fs.drop_last(), package_name, use_symbols) + function_wrapper(
            fs.last(),
            package_name,
            use_symbols,
        )
    }
}

/// The R code of a class: its documentation, the environment that holds its
/// methods (unless it has methods only), the methods, the roxygen tags of an
/// exported class and the `$` and `[[` operators that look methods up.
pub open spec fn impl_wrapper(imp: Impl, package_name: Seq<char>, use_symbols: bool) -> Seq<char> {
    let name = imp.name@;
    let fixed = sanitized(name);
    doc_text(imp.doc@) + (if !imp.methods_only {
        fixed + " <- new.env(parent = emptyenv())\n\n"@
    } else {
        Seq::empty()
    }) + methods_text(imp.methods@, package_name, use_symbols, name) + (if contains_seq(
        imp.doc@,
        "@export"@,
    ) {
        impl_tags(name)
    } else {
        Seq::empty()
    }) + if !imp.methods_only {
        impl_operators(name, fixed)
    } else {
        Seq::empty()
    }
}

/// The roxygen tags of an exported class.
pub open spec fn impl_tags(name: Seq<char>) -> Seq<char> {
    "#' @rdname "@ + name + "\n"@ + "#' @usage NULL\n"@
}

/// The `$` and `[[` operators of a class, which look its methods up in the
/// environment `fixed` and run them in the calling environment.
pub open spec fn impl_operators(name: Seq<char>, fixed: Seq<char>) -> Seq<char> {
    "#' @export\n"@ + "`$."@ + name + "` <- function (self, name) { func <- "@ + fixed
        + "[[name]]; environment(func) <- environment(); func }\n\n"@ + "#' @export\n"@ + "`[[."@
        + name + "` <- `$."@ + name + "`\n\n"@
}

/// The code of a sequence of classes, one after the other.
pub open spec fn impls_text(imps: Seq<Impl>, package_name: Seq<char>, use_symbols: bool) -> Seq<char>
    decreases imps.len(),
{
    if imps.len() == 0 {
        Seq::empty()
    } else {
        impls_text(imps.drop_last(), package_name, use_symbols) + impl_wrapper(
            imps.last(),
            package_name,
            use_symbols,
        )
    }
}

/// The header of the generated file: a notice and the call that made it,
/// then, where symbols are used, the roxygen block that registers the
/// package's native routines.
pub open spec fn wrappers_header(name: Seq<char>, package_name: Seq<char>, use_symbols: bool) -> Seq<
    char,
> {
    "# Generated by extendr: Do not edit by hand\n"@ + "#\n"@
        + "# This file was created with the following call:\n"@ + "#   .Call(\"wrap__make_"@ + name
        + "_wrappers\", use_symbols = "@ + (if use_symbols {
        "TRUE"@
    } else {
        "FALSE"@
    }) + ", package_name = \""@ + package_name + "\")\n"@ + "\n"@ + if use_symbols {
        "#' @usage NULL\n"@ + "#' @useDynLib "@ + package_name + ", .registration = TRUE\n"@
            + "NULL\n"@ + "\n"@
    } else {
        Seq::empty()
    }
}

/// The whole R wrapper file of a module.
pub open spec fn r_wrappers(m: Metadata, use_symbols: bool, package_name: Seq<char>) -> Seq<char> {
    wrappers_header(m.name@, package_name, use_symbols) + functions_text(
        m.functions@,
        package_name,
        use_symbols,
    ) + impls_text(m.impls@, package_name, use_symbols)
}

/// The parameters an R function declares for `args`: each argument's
/// sanitized name, followed by ` = ` and its default where it has one, in
/// order and separated by `, `.
pub open spec fn declared_params(args: Seq<Arg>) -> Seq<char> {
    joined(
        Seq::new(
            args.len(),
            |i: int|
                sanitized(args[i].name@) + match args[i].default {
                    Some(d) => " = "@ + d@,
                    None => Seq::empty(),
                },
        ),
        ", "@,
    )
}

/// The formals written for `args` are their declared parameters.
proof fn lemma_formals_declare_defaults(args: Seq<Arg>)
    ensures
        formal_args(args) == declared_params(args),
{
    let items = Seq::new(
        args.len(),
        |i: int|
            sanitized(args[i].name@) + match args[i].default {
                Some(d) => " = "@ + d@,
                None => Seq::empty(),
            },
    );
    assert forall|i: int| 0 <= i < args.len() implies formal_arg(args[i]) == items[i] by {
        if args[i].default is None {
            assert(sanitized(args[i].name@) + Seq::<char>::empty() =~= sanitized(args[i].name@));
        }
    }
    assert(Seq::new(args.len(), |i: int| formal_arg(args[i])) =~= items);
}

/// The wrapper of a visible function declares every argument with its
/// default: after its documentation it starts with the function's name,
/// ` <- function(`, the declared parameters of all its arguments and `)`.
/// A method's wrapper declares the same for the arguments after the
/// leading `self`.
pub proof fn lemma_wrappers_declare_defaults(
    f: Func,
    package_name: Seq<char>,
    use_symbols: bool,
    class_name: Seq<char>,
)
    requires
        !f.hidden,
    ensures
        starts_with_seq(
            function_wrapper(f, package_name, use_symbols).skip(doc_text(f.doc@).len() as int),
            sanitized(f.r_name@) + " <- function("@ + declared_params(f.args@) + ")"@,
        ),
        starts_with_seq(
            method_wrapper(f, package_name, use_symbols, class_name),
            sanitized(class_name) + "$"@ + sanitized(f.r_name@) + " <- function("@
                + declared_params(skip_self(f.args@)) + ")"@,
        ),
{
    let args = f.args@;
    let rest = skip_self(args);
    lemma_formals_declare_defaults(args);
    lemma_formals_declare_defaults(rest);
    let w = function_wrapper(f, package_name, use_symbols);
    let head = sanitized(f.r_name@) + " <- function("@ + declared_params(args) + ")"@;
    let d = doc_text(f.doc@);
    assert(w.skip(d.len() as int).subrange(0, head.len() as int) =~= head);
    let mw = method_wrapper(f, package_name, use_symbols, class_name);
    let mhead = sanitized(class_name) + "$"@ + sanitized(f.r_name@) + " <- function("@
        + declared_params(rest) + ")"@;
    assert(mw.subrange(0, mhead.len() as int) =~= mhead);
}

// ---------------------------------------------------------------------------
// Generating it.
/// Wraps invalid R identifiers, like `_function_name`, into backticks.
/// Removes raw identifiers (`r#`).
fn sanitize_identifier(name: &str) -> (r: String)
    ensures
        r@ == sanitized(name@),
{
    let n: usize = name.unicode_len();
    if n > 0 && name.get_char(0) == '_' {
        let mut r = String::new();
        push_char(&mut r, '`');
        r.append(name);
        push_char(&mut r, '`');
        assert(r@ =~= seq!['`'] + name@ + seq!['`']);
        r
    } else if n >= 2 && name.get_char(0) == 'r' && name.get_char(1) == '#' {
        let rest: &str = name.substring_char(2, n);
        String::from_str(rest)
    } else {
        String::from_str(name)
    }
}

/// Append the roxygen comment that carries `doc`.
fn write_doc(w: &mut String, doc: &str)
    ensures
        final(w)@ == old(w)@ + doc_text(doc@),
{
    let n: usize = doc.unicode_len();
    if n == 0 {
        assert(doc_text(doc@) =~= Seq::<char>::empty());
        return ;
    }
    let ghost start: Seq<char> = w@;
    w.append("#'");
    proof {
        reveal_strlit("#'");
    }
    let mut i: usize = 0;
    while i < n
        invariant
            n == doc@.len(),
            i <= n,
            w@ == start + seq!['#', '\''] + doc_body(doc@.take(i as int)),
        decreases n - i,
    {
        let c: char = doc.get_char(i);
        let ghost before: Seq<char> = w@;
        assert(doc@.take(i + 1).drop_last() =~= doc@.take(i as int));
        if c == '\n' {
            w.append("\n#'");
            proof {
                reveal_strlit("\n#'");
            }
        } else {
            push_char(w, c);
        }
        assert(w@ =~= start + seq!['#', '\''] + doc_body(doc@.take(i + 1)));
        i = i + 1;
    }
    push_char(w, '\n');
    assert(doc@.take(n as int) =~= doc@);
    assert(w@ =~= start + doc_text(doc@));
}

impl RArg {
    /// The argument as R code names it.
    fn from_arg(arg: &Arg) -> (r: RArg)
        ensures
            r.name@ == sanitized(arg.name@),
            r.default == arg.default,
    {
        RArg { name: sanitize_identifier(arg.name), default: arg.default }
    }

    fn is_self(&self) -> (b: bool)
        ensures
            b == (self.name@ == "self"@),
    {
        str_eq(self.name.as_str(), "self")
    }

    fn to_actual_arg(&self) -> (r: String)
        ensures
            r@ == self.name@,
    {
        self.name.clone()
    }

    fn to_formal_arg(&self) -> (r: String)
        ensures
            r@ == match self.default {
                Some(d) => self.name@ + " = "@ + d@,
                None => self.name@,
            },
    {
        match self.default {
            Some(default_val) => {
                let mut r = self.name.clone();
                r.append(" = ");
                r.append(default_val);
                r
            },
            None => self.name.clone(),
        }
    }
}

/// Skipping the leading `self` arguments leaves the arguments from the first
/// one that is not `self`.
proof fn lemma_skip_self(args: Seq<Arg>, j: int)
    requires
        0 <= j <= args.len(),
        forall|i: int| 0 <= i < j ==> is_self_arg(#[trigger] args[i]),
        j < args.len() ==> !is_self_arg(args[j]),
    ensures
        skip_self(args) == args.subrange(j, args.len() as int),
    decreases j,
{
    if j == 0 {
        assert(args.subrange(0, args.len() as int) =~= args);
    } else {
        let rest = args.drop_first();
        assert forall|i: int| 0 <= i < j - 1 implies is_self_arg(#[trigger] rest[i]) by {
            assert(rest[i] == args[i + 1]);
        }
        if j - 1 < rest.len() {
            assert(rest[j - 1] == args[j]);
        }
        lemma_skip_self(rest, j - 1);
        assert(rest.subrange(j - 1, rest.len() as int) =~= args.subrange(j, args.len() as int));
    }
}

/// The formals of the arguments from index `start` on.
fn formals_from(args: &Vec<Arg>, start: usize) -> (r: String)
    requires
        start <= args@.len(),
    ensures
        r@ == formal_args(args@.subrange(start as int, args@.len() as int)),
{
    let ghost tail: Seq<Arg> = args@.subrange(start as int, args@.len() as int);
    let mut parts: Vec<String> = Vec::new();
    let mut i: usize = start;
    while i < args.len()
        invariant
            start <= i <= args@.len(),
            tail == args@.subrange(start as int, args@.len() as int),
            parts@.len() == i - start,
            forall|j: int| 0 <= j < parts@.len() ==> #[trigger] parts@[j]@ == formal_arg(tail[j]),
        decreases args.len() - i,
    {
        let a: RArg = RArg::from_arg(&args[i]);
        let f: String = a.to_formal_arg();
        parts.push(f);
        i = i + 1;
    }
    let r: String = join_str(&parts, ", ");
    assert(Seq::new(parts@.len(), |i: int| parts@[i]@) =~= Seq::new(
        tail.len(),
        |i: int| formal_arg(tail[i]),
    ));
    r
}

/// The actual arguments of a call.
fn actuals_of(args: &Vec<Arg>) -> (r: String)
    ensures
        r@ == actual_args(args@),
{
    let mut parts: Vec<String> = Vec::new();
    let mut i: usize = 0;
    while i < args.len()
        invariant
            i <= args@.len(),
            parts@.len() == i,
            forall|j: int| 0 <= j < parts@.len() ==> #[trigger] parts@[j]@ == actual_arg(args@[j]),
        decreases args.len() - i,
    {
        let a: RArg = RArg::from_arg(&args[i]);
        let f: String = a.to_actual_arg();
        parts.push(f);
        i = i + 1;
    }
    let r: String = join_str(&parts, ", ");
    assert(Seq::new(parts@.len(), |i: int| parts@[i]@) =~= Seq::new(
        args@.len(),
        |i: int| actual_arg(args@[i]),
    ));
    r
}

/// The index of the first argument that is not `self`.
fn first_non_self(args: &Vec<Arg>) -> (j: usize)
    ensures
        j <= args@.len(),
        forall|i: int| 0 <= i < j ==> is_self_arg(#[trigger] args@[i]),
        j < args@.len() ==> !is_self_arg(args@[j as int]),
{
    let mut j: usize = 0;
    while j < args.len()
        invariant
            j <= args@.len(),
            forall|i: int| 0 <= i < j ==> is_self_arg(#[trigger] args@[i]),
        decreases args.len() - j,
    {
        let a: RArg = RArg::from_arg(&args[j]);
        if !a.is_self() {
            return j;
        }
        j = j + 1;
    }
    j
}

/// Append the head of a wrapper.
fn write_head(w: &mut String, lhs: &str, formals: &str, unit: bool)
    ensures
        final(w)@ == old(w)@ + wrapper_head(lhs@, formals@, unit),
{
    let ghost start: Seq<char> = w@;
    w.append(lhs);
    w.append(" <- function(");
    w.append(formals);
    w.append(")");
    if unit {
        w.append(" invisible(.Call(");
    } else {
        w.append(" .Call(");
    }
    assert(w@ =~= start + wrapper_head(lhs@, formals@, unit));
}

/// Append the native routine's symbol.
fn write_routine(w: &mut String, name: &str, use_symbols: bool)
    ensures
        final(w)@ == old(w)@ + routine(name@, use_symbols),
{
    let ghost start: Seq<char> = w@;
    if use_symbols {
        w.append("wrap__");
        w.append(name);
    } else {
        w.append("\"wrap__");
        w.append(name);
        w.append("\"");
    }
    assert(w@ =~= start + routine(name@, use_symbols));
}

/// Append the tail of a wrapper.
fn write_tail(w: &mut String, actuals: &str, has_args: bool, package_name: &str, use_symbols: bool, unit: bool)
    ensures
        final(w)@ == old(w)@ + wrapper_tail(actuals@, has_args, package_name@, use_symbols, unit),
{
    let ghost start: Seq<char> = w@;
    if has_args {
        w.append(", ");
        w.append(actuals);
    }
    if !use_symbols {
        w.append(", PACKAGE = \"");
        w.append(package_name);
        w.append("\"");
    }
    if unit {
        w.append("))\n\n");
    } else {
        w.append(")\n\n");
    }
    assert(w@ =~= start + wrapper_tail(actuals@, has_args, package_name@, use_symbols, unit));
}

/// Generate a wrapper for a non-method function.
fn write_function_wrapper(w: &mut String, func: &Func, package_name: &str, use_symbols: bool)
    ensures
        final(w)@ == old(w)@ + function_wrapper(*func, package_name@, use_symbols),
{
    let ghost start: Seq<char> = w@;
    if func.hidden {
        assert(w@ =~= start + function_wrapper(*func, package_name@, use_symbols));
        return ;
    }
    write_doc(w, func.doc);
    let formals: String = formals_from(&func.args, 0);
    assert(func.args@.subrange(0, func.args@.len() as int) =~= func.args@);
    let actuals: String = actuals_of(&func.args);
    let unit: bool = str_eq(func.return_type, "()");
    let lhs: String = sanitize_identifier(func.r_name);
    write_head(w, lhs.as_str(), formals.as_str(), unit);
    write_routine(w, func.mod_name, use_symbols);
    write_tail(w, actuals.as_str(), func.args.len() > 0, package_name, use_symbols, unit);
    assert(w@ =~= start + function_wrapper(*func, package_name@, use_symbols));
}

/// Generate a wrapper for a method of the class `class_name`.
fn write_method_wrapper(
    w: &mut String,
    func: &Func,
    package_name: &str,
    use_symbols: bool,
    class_name: &str,
)
    ensures
        final(w)@ == old(w)@ + method_wrapper(*func, package_name@, use_symbols, class_name@),
{
    let ghost start: Seq<char> = w@;
    if func.hidden {
        assert(w@ =~= start + method_wrapper(*func, package_name@, use_symbols, class_name@));
        return ;
    }
    // Skip a leading "self" argument: the environment supplies it.
    let first: usize = first_non_self(&func.args);
    proof {
        lemma_skip_self(func.args@, first as int);
    }
    let formals: String = formals_from(&func.args, first);
    let actuals: String = actuals_of(&func.args);
    let unit: bool = str_eq(func.return_type, "()");
    let mut lhs: String = sanitize_identifier(class_name);
    lhs.append("$");
    let method_name: String = sanitize_identifier(func.r_name);
    lhs.append(method_name.as_str());
    let mut symbol: String = String::from_str(class_name);
    symbol.append("__");
    symbol.append(func.mod_name);
    write_head(w, lhs.as_str(), formals.as_str(), unit);
    write_routine(w, symbol.as_str(), use_symbols);
    write_tail(w, actuals.as_str(), func.args.len() > 0, package_name, use_symbols, unit);
    assert(w@ =~= start + method_wrapper(*func, package_name@, use_symbols, class_name@));
}

/// Append the roxygen tags of an exported class.
fn write_impl_tags(w: &mut String, name: &str)
    ensures
        final(w)@ == old(w)@ + impl_tags(name@),
{
    let ghost start: Seq<char> = w@;
    w.append("#' @rdname ");
    w.append(name);
    w.append("\n");
    w.append("#' @usage NULL\n");
    assert(w@ =~= start + impl_tags(name@));
}

/// Append the `$` and `[[` operators of a class.
fn write_impl_operators(w: &mut String, name: &str, fixed: &str)
    ensures
        final(w)@ == old(w)@ + impl_operators(name@, fixed@),
{
    let ghost start: Seq<char> = w@;
    w.append("#' @export\n");
    w.append("`$.");
    w.append(name);
    w.append("` <- function (self, name) { func <- ");
    w.append(fixed);
    w.append("[[name]]; environment(func) <- environment(); func }\n\n");
    w.append("#' @export\n");
    w.append("`[[.");
    w.append(name);
    w.append("` <- `$.");
    w.append(name);
    w.append("`\n\n");
    assert(w@ =~= start + impl_operators(name@, fixed@));
}

/// Append the wrappers of the methods of the class `class_name`.
fn write_methods(w: &mut String, methods: &Vec<Func>, package_name: &str, use_symbols: bool, class_name: &str)
    ensures
        final(w)@ == old(w)@ + methods_text(methods@, package_name@, use_symbols, class_name@),
{
    let ghost start: Seq<char> = w@;
    let mut i: usize = 0;
    while i < methods.len()
        invariant
            i <= methods@.len(),
            w@ == start + methods_text(methods@.take(i as int), package_name@, use_symbols, class_name@),
        decreases methods.len() - i,
    {
        assert(methods@.take(i + 1).drop_last() =~= methods@.take(i as int));
        write_method_wrapper(w, &methods[i], package_name, use_symbols, class_name);
        assert(w@ =~= start + methods_text(methods@.take(i + 1), package_name@, use_symbols, class_name@));
        i = i + 1;
    }
    assert(methods@.take(methods@.len() as int) =~= methods@);
}

/// Generate the code of a class.
fn write_impl_wrapper(w: &mut String, imp: &Impl, package_name: &str, use_symbols: bool)
    ensures
        final(w)@ == old(w)@ + impl_wrapper(*imp, package_name@, use_symbols),
{
    let ghost start: Seq<char> = w@;
    let exported: bool = contains_str(imp.doc, "@export");
    write_doc(w, imp.doc);
    let ghost after_doc: Seq<char> = w@;
    let imp_name_fixed: String = sanitize_identifier(imp.name);
    if !imp.methods_only {
        w.append(imp_name_fixed.as_str());
        w.append(" <- new.env(parent = emptyenv())\n\n");
    }
    let ghost after_env: Seq<char> = w@;
    write_methods(w, &imp.methods, package_name, use_symbols, imp.name);
    let ghost after_methods: Seq<char> = w@;
    if exported {
        write_impl_tags(w, imp.name);
    }
    let ghost after_tags: Seq<char> = w@;
    if !imp.methods_only {
        write_impl_operators(w, imp.name, imp_name_fixed.as_str());
    }
    assert(w@ =~= start + impl_wrapper(*imp, package_name@, use_symbols));
}

/// Append the header of the wrapper file.
fn write_header(w: &mut String, name: &str, package_name: &str, use_symbols: bool)
    ensures
        final(w)@ == old(w)@ + wrappers_header(name@, package_name@, use_symbols),
{
    let ghost start: Seq<char> = w@;
    w.append("# Generated by extendr: Do not edit by hand\n");
    w.append("#\n");
    w.append("# This file was created with the following call:\n");
    w.append("#   .Call(\"wrap__make_");
    w.append(name);
    w.append("_wrappers\", use_symbols = ");
    if use_symbols {
        w.append("TRUE");
    } else {
        w.append("FALSE");
    }
    w.append(", package_name = \"");
    w.append(package_name);
    w.append("\")\n");
    w.append("\n");
    let ghost mid: Seq<char> = w@;
    assert(mid =~= start + "# Generated by extendr: Do not edit by hand\n"@ + "#\n"@
        + "# This file was created with the following call:\n"@ + "#   .Call(\"wrap__make_"@ + name@
        + "_wrappers\", use_symbols = "@ + (if use_symbols {
        "TRUE"@
    } else {
        "FALSE"@
    }) + ", package_name = \""@ + package_name@ + "\")\n"@ + "\n"@);
    if use_symbols {
        w.append("#' @usage NULL\n");
        w.append("#' @useDynLib ");
        w.append(package_name);
        w.append(", .registration = TRUE\n");
        w.append("NULL\n");
        w.append("\n");
    }
    assert(w@ =~= start + wrappers_header(name@, package_name@, use_symbols));
}

/// `std::io::Error`, the error of the wrapper generation's result type.
#[verifier::external_type_specification]
#[verifier::external_body]
pub struct ExIoError(std::io::Error);

impl Metadata {
    /// The R code that wraps the module's functions and classes: a header
    /// that records the call, then a wrapper for each visible function and
    /// the code of each class (see `r_wrappers`). It never fails.
    pub fn make_r_wrappers(&self, use_symbols: bool, package_name: &str) -> (r: std::io::Result<
        String,
    >)
        ensures
            r is Ok,
            r matches Ok(s) ==> s@ == r_wrappers(*self, use_symbols, package_name@),
    {
        let mut w = String::new();
        write_header(&mut w, self.name, package_name, use_symbols);
        let ghost after_header: Seq<char> = w@;
        let mut i: usize = 0;
        while i < self.functions.len()
            invariant
                i <= self.functions@.len(),
                w@ == after_header + functions_text(
                    self.functions@.take(i as int),
                    package_name@,
                    use_symbols,
                ),
            decreases self.functions.len() - i,
        {
            assert(self.functions@.take(i + 1).drop_last() =~= self.functions@.take(i as int));
            write_function_wrapper(&mut w, &self.functions[i], package_name, use_symbols);
            i = i + 1;
        }
        assert(self.functions@.take(self.functions@.len() as int) =~= self.functions@);
        let ghost after_functions: Seq<char> = w@;
        let mut j: usize = 0;
        while j < self.impls.len()
            invariant
                j <= self.impls@.len(),
                w@ == after_functions + impls_text(self.impls@.take(j as int), package_name@, use_symbols),
            decreases self.impls.len() - j,
        {
            assert(self.impls@.take(j + 1).drop_last() =~= self.impls@.take(j as int));
            write_impl_wrapper(&mut w, &self.impls[j], package_name, use_symbols);
            j = j + 1;
        }
        assert(self.impls@.take(self.impls@.len() as int) =~= self.impls@);
        assert(w@ =~= r_wrappers(*self, use_symbols, package_name@));
        Ok(w)
    }
}

} // verus!
