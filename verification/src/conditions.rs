//! R conditions (messages, warnings, errors) built from Rust, and the
//! formatting of condition messages.
use vstd::prelude::*;
use crate::text::{joined, push_char, str_eq};

verus! {

/// Discriminates the kind of R condition being constructed.
#[derive(Copy, Debug, Clone, PartialEq, Eq, Structural)]
pub enum ConditionKind {
    Condition,
    Message,
    Warning,
    Error,
}

/// Rust-native representation of an R condition. `L` is the type of the
/// call the condition refers to (an R language object in an R session).
#[derive(Debug, Clone, PartialEq)]
pub struct Condition<L> {
    pub message: Vec<String>,
    pub kind: ConditionKind,
    pub class: Option<Vec<String>>,
    pub call: Option<L>,
}

/// Builder for constructing a [`Condition`].
pub struct ConditionBuilder<L> {
    message: Vec<String>,
    kind: ConditionKind,
    class: Option<Vec<String>>,
    call: Option<L>,
}

/// The characters of each string.
pub open spec fn views(v: Seq<String>) -> Seq<Seq<char>> {
    Seq::new(v.len(), |i: int| v[i]@)
}

/// The base classes R gives a condition of each kind, most specific first.
pub open spec fn base_classes(kind: ConditionKind) -> Seq<Seq<char>> {
    match kind {
        ConditionKind::Condition => seq!["simpleCondition"@, "condition"@],
        ConditionKind::Message => seq!["simpleMessage"@, "message"@, "condition"@],
        ConditionKind::Warning => seq!["simpleWarning"@, "warning"@, "condition"@],
        ConditionKind::Error => seq!["simpleError"@, "error"@, "condition"@],
    }
}

/// The class attribute of a condition: its own classes, then the base
/// classes of its kind.
pub open spec fn full_class(kind: ConditionKind, class: Option<Seq<Seq<char>>>) -> Seq<Seq<char>> {
    match class {
        Some(c) => c + base_classes(kind),
        None => base_classes(kind),
    }
}

/// The kinds whose class names a class vector holds, in the order error,
/// warning, message.
pub open spec fn matched_kinds(cls: Seq<Seq<char>>) -> Seq<Seq<char>> {
    (if cls.contains("error"@) { seq!["error"@] } else { Seq::empty() }) + (if cls.contains(
        "warning"@,
    ) {
        seq!["warning"@]
    } else {
        Seq::empty()
    }) + if cls.contains("message"@) {
        seq!["message"@]
    } else {
        Seq::empty()
    }
}

/// The kind of a condition whose class vector holds at most one base kind.
pub open spec fn kind_of(cls: Seq<Seq<char>>) -> ConditionKind {
    if cls.contains("error"@) {
        ConditionKind::Error
    } else if cls.contains("warning"@) {
        ConditionKind::Warning
    } else if cls.contains("message"@) {
        ConditionKind::Message
    } else {
        ConditionKind::Condition
    }
}

/// The classes of `cls` that are not in `base`, in order.
pub open spec fn without(cls: Seq<Seq<char>>, base: Seq<Seq<char>>) -> Seq<Seq<char>>
    decreases cls.len(),
{
    if cls.len() == 0 {
        Seq::empty()
    } else {
        without(cls.drop_last(), base) + if base.contains(cls.last()) {
            Seq::empty()
        } else {
            seq![cls.last()]
        }
    }
}

/// What reading a condition back from its message and class vector gives:
/// an error text, or the kind and the user classes (`None` when there are
/// none).
pub open spec fn read_condition(cls: Seq<Seq<char>>) -> Result<
    (ConditionKind, Option<Seq<Seq<char>>>),
    Seq<char>,
> {
    if !cls.contains("condition"@) {
        Err("object does not inherit from `condition`"@)
    } else if matched_kinds(cls).len() > 1 {
        Err("ambiguous condition: inherits from multiple base kinds: "@ + joined(
            matched_kinds(cls),
            ", "@,
        ))
    } else {
        let user = without(cls, base_classes(kind_of(cls)));
        Ok((kind_of(cls), if user.len() == 0 { None } else { Some(user) }))
    }
}

/// The base class names of all kinds.
pub open spec fn all_base_classes() -> Seq<Seq<char>> {
    seq![
        "simpleCondition"@,
        "condition"@,
        "simpleMessage"@,
        "message"@,
        "simpleWarning"@,
        "warning"@,
        "simpleError"@,
        "error"@,
    ]
}

proof fn lemma_without_concat(a: Seq<Seq<char>>, b: Seq<Seq<char>>, base: Seq<Seq<char>>)
    ensures
        without(a + b, base) == without(a, base) + without(b, base),
    decreases b.len(),
{
    if b.len() == 0 {
        assert(a + b =~= a);
        assert(without(a, base) + without(b, base) =~= without(a, base));
    } else {
        lemma_without_concat(a, b.drop_last(), base);
        assert((a + b).drop_last() =~= a + b.drop_last());
        assert((a + b).last() == b.last());
    }
}

proof fn lemma_without_none(a: Seq<Seq<char>>, base: Seq<Seq<char>>)
    requires
        forall|i: int| 0 <= i < a.len() ==> !base.contains(#[trigger] a[i]),
    ensures
        without(a, base) == a,
    decreases a.len(),
{
    if a.len() > 0 {
        lemma_without_none(a.drop_last(), base);
        assert(without(a, base) =~= a.drop_last() + seq![a.last()]);
        assert(a.drop_last() + seq![a.last()] =~= a);
    }
}

proof fn lemma_without_all(a: Seq<Seq<char>>, base: Seq<Seq<char>>)
    requires
        forall|i: int| 0 <= i < a.len() ==> base.contains(#[trigger] a[i]),
    ensures
        without(a, base) == Seq::<Seq<char>>::empty(),
    decreases a.len(),
{
    if a.len() > 0 {
        lemma_without_all(a.drop_last(), base);
        assert(base.contains(a[a.len() - 1]));
    }
}

/// Reading back the class vector that a condition's R list carries gives the
/// condition's kind and own classes again, when its own classes are not base
/// class names and, if present, not empty.
pub proof fn lemma_class_roundtrip(kind: ConditionKind, class: Option<Seq<Seq<char>>>)
    requires
        class matches Some(u) ==> u.len() > 0 && forall|i: int|
            0 <= i < u.len() ==> !all_base_classes().contains(#[trigger] u[i]),
    ensures
        read_condition(full_class(kind, class)) == Ok::<
            (ConditionKind, Option<Seq<Seq<char>>>),
            Seq<char>,
        >((kind, class)),
{
    reveal_strlit("simpleCondition");
    reveal_strlit("condition");
    reveal_strlit("simpleMessage");
    reveal_strlit("message");
    reveal_strlit("simpleWarning");
    reveal_strlit("warning");
    reveal_strlit("simpleError");
    reveal_strlit("error");
    assert("simpleCondition"@.len() == 15 && "condition"@.len() == 9);
    assert("simpleMessage"@.len() == 13 && "message"@.len() == 7);
    assert("simpleWarning"@.len() == 13 && "warning"@.len() == 7);
    assert("simpleError"@.len() == 11 && "error"@.len() == 5);
    assert("message"@[0] == 'm' && "warning"@[0] == 'w');
    let base = base_classes(kind);
    let u: Seq<Seq<char>> = match class {
        Some(c) => c,
        None => Seq::empty(),
    };
    let full = full_class(kind, class);
    assert(full =~= u + base);
    assert(full[full.len() - 1] == "condition"@);
    assert forall|i: int| 0 <= i < u.len() implies !base.contains(#[trigger] u[i]) by {
        if base.contains(u[i]) {
            let j = choose|j: int| 0 <= j < base.len() && base[j] == u[i];
            assert(all_base_classes().contains(u[i]));
        }
    }
    // the kinds named in the class vector are exactly the kind's own
    assert forall|name: Seq<char>| #![auto]
        (name == "error"@ || name == "warning"@ || name == "message"@) implies (full.contains(name)
        <==> base.contains(name)) by {
        if full.contains(name) {
            let j = choose|j: int| 0 <= j < full.len() && full[j] == name;
            if j < u.len() {
                assert(u[j] == name);
                assert(all_base_classes().contains(name));
            } else {
                assert(base[j - u.len()] == name);
            }
        }
        if base.contains(name) {
            let j = choose|j: int| 0 <= j < base.len() && base[j] == name;
            assert(full[u.len() + j] == name);
        }
    }
    assert(full.contains("error"@) <==> base.contains("error"@));
    assert(full.contains("warning"@) <==> base.contains("warning"@));
    assert(full.contains("message"@) <==> base.contains("message"@));
    match kind {
        ConditionKind::Condition => {
            assert(!base.contains("error"@));
            assert(!base.contains("warning"@));
            assert(!base.contains("message"@));
        },
        ConditionKind::Message => {
            assert(base[1] == "message"@);
            assert(base[1] != "warning"@);
            assert(!base.contains("error"@));
            assert(!base.contains("warning"@));
        },
        ConditionKind::Warning => {
            assert(base[1] == "warning"@);
            assert(base[1] != "message"@);
            assert(!base.contains("error"@));
            assert(!base.contains("message"@));
        },
        ConditionKind::Error => {
            assert(base[1] == "error"@);
        },
    }
    assert(kind_of(full) == kind);
    lemma_without_concat(u, base, base);
    lemma_without_none(u, base);
    assert forall|i: int| 0 <= i < base.len() implies base.contains(#[trigger] base[i]) by {}
    lemma_without_all(base, base);
    assert(without(full, base) =~= u);
}

impl<L> ConditionBuilder<L> {
    /// The message lines set so far.
    pub closed spec fn spec_message(&self) -> Seq<String> {
        self.message@
    }

    /// The kind set so far.
    pub closed spec fn spec_kind(&self) -> ConditionKind {
        self.kind
    }

    /// The classes set so far.
    pub closed spec fn spec_class(&self) -> Option<Vec<String>> {
        self.class
    }

    /// The call set so far.
    pub closed spec fn spec_call(&self) -> Option<L> {
        self.call
    }

    pub fn new() -> (b: Self)
        ensures
            b.spec_message().len() == 0,
            b.spec_kind() == ConditionKind::Condition,
            b.spec_class() is None,
            b.spec_call() is None,
    {
        Self::default()
    }

    /// Builder with an empty message, kind `Condition`, no class and no call.
    pub fn default() -> (b: Self)
        ensures
            b.spec_message().len() == 0,
            b.spec_kind() == ConditionKind::Condition,
            b.spec_class() is None,
            b.spec_call() is None,
    {
        ConditionBuilder { message: Vec::new(), kind: ConditionKind::Condition, class: None, call: None }
    }

    pub fn set_message(self, message: &[&str]) -> (b: Self)
        ensures
            views(b.spec_message()) == Seq::new(message@.len(), |i: int| message@[i]@),
            b.spec_kind() == self.spec_kind(),
            b.spec_class() == self.spec_class(),
            b.spec_call() == self.spec_call(),
    {
        let v: Vec<String> = to_strings(message);
        ConditionBuilder { message: v, kind: self.kind, class: self.class, call: self.call }
    }

    pub fn set_kind(self, kind: ConditionKind) -> (b: Self)
        ensures
            b.spec_message() == self.spec_message(),
            b.spec_kind() == kind,
            b.spec_class() == self.spec_class(),
            b.spec_call() == self.spec_call(),
    {
        ConditionBuilder { message: self.message, kind, class: self.class, call: self.call }
    }

    pub fn set_class(self, class: &[&str]) -> (b: Self)
        ensures
            b.spec_message() == self.spec_message(),
            b.spec_kind() == self.spec_kind(),
            b.spec_class() matches Some(c) && views(c@) == Seq::new(class@.len(), |i: int| class@[i]@),
            b.spec_call() == self.spec_call(),
    {
        let v: Vec<String> = to_strings(class);
        ConditionBuilder { message: self.message, kind: self.kind, class: Some(v), call: self.call }
    }

    pub fn set_call(self, call: L) -> (b: Self)
        ensures
            b.spec_message() == self.spec_message(),
            b.spec_kind() == self.spec_kind(),
            b.spec_class() == self.spec_class(),
            b.spec_call() == Some(call),
    {
        ConditionBuilder { message: self.message, kind: self.kind, class: self.class, call: Some(call) }
    }

    pub fn build(self) -> (c: Condition<L>)
        ensures
            c.message@ == self.spec_message(),
            c.kind == self.spec_kind(),
            c.class == self.spec_class(),
            c.call == self.spec_call(),
    {
        Condition { message: self.message, kind: self.kind, class: self.class, call: self.call }
    }
}

/// Owned copies of string slices.
fn to_strings(items: &[&str]) -> (v: Vec<String>)
    ensures
        views(v@) == Seq::new(items@.len(), |i: int| items@[i]@),
{
    let mut v: Vec<String> = Vec::new();
    let mut i: usize = 0;
    while i < items.len()
        invariant
            i <= items@.len(),
            v@.len() == i,
            forall|j: int| 0 <= j < i ==> #[trigger] v@[j]@ == items@[j]@,
        decreases items.len() - i,
    {
        v.push(String::from_str(items[i]));
        i = i + 1;
    }
    assert(views(v@) =~= Seq::new(items@.len(), |i: int| items@[i]@));
    v
}

/// Append copies of the base classes of `kind`.
fn push_base_classes(v: &mut Vec<String>, kind: ConditionKind)
    ensures
        views(final(v)@) == views(old(v)@) + base_classes(kind),
{
    let ghost start: Seq<Seq<char>> = views(v@);
    match kind {
        ConditionKind::Condition => {
            v.push(String::from_str("simpleCondition"));
            v.push(String::from_str("condition"));
        },
        ConditionKind::Message => {
            v.push(String::from_str("simpleMessage"));
            v.push(String::from_str("message"));
            v.push(String::from_str("condition"));
        },
        ConditionKind::Warning => {
            v.push(String::from_str("simpleWarning"));
            v.push(String::from_str("warning"));
            v.push(String::from_str("condition"));
        },
        ConditionKind::Error => {
            v.push(String::from_str("simpleError"));
            v.push(String::from_str("error"));
            v.push(String::from_str("condition"));
        },
    }
    assert(views(v@) =~= start + base_classes(kind));
}

/// Whether one of the strings equals `name`.
fn has_class(cls: &Vec<String>, name: &str) -> (b: bool)
    ensures
        b == views(cls@).contains(name@),
{
    let mut i: usize = 0;
    while i < cls.len()
        invariant
            i <= cls@.len(),
            forall|j: int| 0 <= j < i ==> cls@[j]@ != name@,
        decreases cls.len() - i,
    {
        if str_eq(cls[i].as_str(), name) {
            assert(views(cls@)[i as int] == name@);
            return true;
        }
        i = i + 1;
    }
    assert forall|j: int| 0 <= j < views(cls@).len() implies views(cls@)[j] != name@ by {
        assert(views(cls@)[j] == cls@[j]@);
    }
    false
}

/// Whether `name` is one of the base classes of `kind`.
fn is_base_class(kind: ConditionKind, name: &str) -> (b: bool)
    ensures
        b == base_classes(kind).contains(name@),
{
    let mut base: Vec<String> = Vec::new();
    push_base_classes(&mut base, kind);
    assert(views(base@) =~= base_classes(kind));
    has_class(&base, name)
}

impl<L> Condition<L> {
    /// The class attribute of the R condition list: the condition's own
    /// classes, then the base classes of its kind (`simpleError`, `error`,
    /// `condition` for an error).
    pub fn r_class(&self) -> (v: Vec<String>)
        ensures
            views(v@) == full_class(
                self.kind,
                match self.class {
                    Some(c) => Some(views(c@)),
                    None => None,
                },
            ),
    {
        let mut v: Vec<String> = Vec::new();
        match &self.class {
            Some(c) => {
                let mut i: usize = 0;
                while i < c.len()
                    invariant
                        i <= c@.len(),
                        v@.len() == i,
                        forall|j: int| 0 <= j < i ==> #[trigger] v@[j]@ == c@[j]@,
                    decreases c.len() - i,
                {
                    let item: String = c[i].clone();
                    assert(item@ == c@[i as int]@);
                    v.push(item);
                    i = i + 1;
                }
                assert(views(v@) =~= views(c@));
            },
            None => {
                assert(views(v@) =~= Seq::<Seq<char>>::empty());
            },
        }
        push_base_classes(&mut v, self.kind);
        v
    }

    /// Read a condition back from the message and the class vector of an R
    /// condition list. The class vector must hold `condition` and at most
    /// one of `error`, `warning` and `message`, which gives the kind; the
    /// classes other than the base classes of that kind are the condition's
    /// own (none if there are no others). Otherwise the error text says why.
    pub fn from_parts(message: Vec<String>, cls: &Vec<String>, call: Option<L>) -> (r: Result<
        Condition<L>,
        String,
    >)
        ensures
            match read_condition(views(cls@)) {
                Ok((kind, class)) => r matches Ok(c) && c.message == message && c.kind == kind
                    && c.call == call && match class {
                    Some(u) => c.class matches Some(cv) && views(cv@) == u,
                    None => c.class is None,
                },
                Err(text) => r matches Err(s) && s@ == text,
            },
    {
        let ghost cv: Seq<Seq<char>> = views(cls@);
        if !has_class(cls, "condition") {
            return Err(String::from_str("object does not inherit from `condition`"));
        }
        let is_error: bool = has_class(cls, "error");
        let is_warning: bool = has_class(cls, "warning");
        let is_message: bool = has_class(cls, "message");
        let count: usize = (if is_error { 1usize } else { 0usize }) + (if is_warning { 1usize } else { 0usize })
            + (if is_message { 1usize } else { 0usize });
        assert(matched_kinds(cv).len() == count);
        if count > 1 {
            let mut text = String::from_str("ambiguous condition: inherits from multiple base kinds: ");
            let ghost start: Seq<char> = text@;
            let mut first: bool = true;
            if is_error {
                text.append("error");
                first = false;
            }
            if is_warning {
                if !first {
                    text.append(", ");
                }
                text.append("warning");
                first = false;
            }
            if is_message {
                if !first {
                    text.append(", ");
                }
                text.append("message");
            }
            proof {
                reveal_with_fuel(joined, 4);
            }
            assert(text@ =~= start + joined(matched_kinds(cv), ", "@));
            return Err(text);
        }
        let kind: ConditionKind = if is_error {
            ConditionKind::Error
        } else if is_warning {
            ConditionKind::Warning
        } else if is_message {
            ConditionKind::Message
        } else {
            ConditionKind::Condition
        };
        assert(kind == kind_of(cv));
        // Strip the base classes to recover the condition's own classes.
        let mut user: Vec<String> = Vec::new();
        let mut i: usize = 0;
        while i < cls.len()
            invariant
                i <= cls@.len(),
                cv == views(cls@),
                views(user@) == without(cv.take(i as int), base_classes(kind)),
            decreases cls.len() - i,
        {
            assert(cv.take(i + 1).drop_last() =~= cv.take(i as int));
            assert(cv.take(i + 1).last() == cls@[i as int]@);
            if !is_base_class(kind, cls[i].as_str()) {
                user.push(cls[i].clone());
            }
            assert(views(user@) =~= without(cv.take(i + 1), base_classes(kind)));
            i = i + 1;
        }
        assert(cv.take(cls@.len() as int) =~= cv);
        let class: Option<Vec<String>> = if user.len() == 0 {
            None
        } else {
            Some(user)
        };
        Ok(Condition { message, kind, class, call })
    }
}

/// Whether standard error is a terminal (`IsTerminal::is_terminal` on
/// `std::io::stderr()`); nothing is stated of the answer, which depends on
/// how the process was started.
#[verifier::external_body]
fn stderr_is_terminal() -> bool {
    std::io::IsTerminal::is_terminal(&std::io::stderr())
}

/// The `!` that starts an error message, yellow on a terminal.
pub open spec fn bang(use_color: bool) -> Seq<char> {
    if use_color { "\x1b[33m!\x1b[0m"@ } else { "!"@ }
}

/// The bullet of a detail line, cyan on a terminal.
pub open spec fn bullet(use_color: bool) -> Seq<char> {
    if use_color { "\x1b[36m\u{2022}\x1b[0m"@ } else { "\u{2022}"@ }
}

/// The detail lines, each on a new line after a bullet and a space.
pub open spec fn bullet_lines(body: Seq<Seq<char>>, use_color: bool) -> Seq<char>
    decreases body.len(),
{
    if body.len() == 0 {
        Seq::empty()
    } else {
        bullet_lines(body.drop_last(), use_color) + "\n"@ + bullet(use_color) + " "@ + body.last()
    }
}

/// An error message: a line break, `! `, the header, then the detail lines.
pub open spec fn cnd_message(header: Seq<char>, body: Seq<Seq<char>>, use_color: bool) -> Seq<char> {
    "\n"@ + bang(use_color) + " "@ + header + bullet_lines(body, use_color)
}

/// A warning message: the header, then the detail lines.
pub open spec fn warn_message(header: Seq<char>, body: Seq<Seq<char>>, use_color: bool) -> Seq<char> {
    header + bullet_lines(body, use_color)
}

/// The characters of each string slice.
pub open spec fn str_views(body: Seq<&str>) -> Seq<Seq<char>> {
    Seq::new(body.len(), |i: int| body[i]@)
}

/// Append the detail lines.
fn write_bullets(w: &mut String, body: &[&str], use_color: bool)
    ensures
        final(w)@ == old(w)@ + bullet_lines(str_views(body@), use_color),
{
    let ghost start: Seq<char> = w@;
    let ghost lines: Seq<Seq<char>> = str_views(body@);
    let mut i: usize = 0;
    while i < body.len()
        invariant
            i <= body@.len(),
            lines == str_views(body@),
            w@ == start + bullet_lines(lines.take(i as int), use_color),
        decreases body.len() - i,
    {
        assert(lines.take(i + 1).drop_last() =~= lines.take(i as int));
        assert(lines.take(i + 1).last() == body@[i as int]@);
        w.append("\n");
        if use_color {
            w.append("\x1b[36m\u{2022}\x1b[0m");
        } else {
            w.append("\u{2022}");
        }
        w.append(" ");
        w.append(body[i]);
        assert(w@ =~= start + bullet_lines(lines.take(i + 1), use_color));
        i = i + 1;
    }
    assert(lines.take(body@.len() as int) =~= lines);
}

/// Format an error message with rlang-style bullets, in color or not.
pub fn format_cnd_message_styled(header: &str, body: &[&str], use_color: bool) -> (r: String)
    ensures
        r@ == cnd_message(header@, str_views(body@), use_color),
{
    let mut msg = String::from_str("\n");
    if use_color {
        msg.append("\x1b[33m!\x1b[0m");
    } else {
        msg.append("!");
    }
    msg.append(" ");
    msg.append(header);
    let ghost head: Seq<char> = msg@;
    write_bullets(&mut msg, body, use_color);
    assert(msg@ =~= cnd_message(header@, str_views(body@), use_color));
    msg
}

/// Format a warning message with rlang-style bullets, in color or not.
pub fn format_warn_message_styled(header: &str, body: &[&str], use_color: bool) -> (r: String)
    ensures
        r@ == warn_message(header@, str_views(body@), use_color),
{
    let mut msg = String::from_str(header);
    write_bullets(&mut msg, body, use_color);
    msg
}

/// Format an error message with rlang-style bullets.
///
/// The header gets a `! ` prefix, additional elements get `• ` prefix.
/// A leading line break is included so the message appears on a new line
/// after `Error in foo():` or `Error:`. The marks are colored when standard
/// error is a terminal.
pub fn format_cnd_message(header: &str, body: &[&str]) -> (r: String)
    ensures
        r@ == cnd_message(header@, str_views(body@), false) || r@ == cnd_message(
            header@,
            str_views(body@),
            true,
        ),
{
    let use_color: bool = stderr_is_terminal();
    format_cnd_message_styled(header, body, use_color)
}

/// Format a warning message with rlang-style bullets: no `!` prefix, just
/// the header and `• ` bullets, colored when standard error is a terminal.
pub fn format_warn_message(header: &str, body: &[&str]) -> (r: String)
    ensures
        r@ == warn_message(header@, str_views(body@), false) || r@ == warn_message(
            header@,
            str_views(body@),
            true,
        ),
{
    let use_color: bool = stderr_is_terminal();
    format_warn_message_styled(header, body, use_color)
}

} // verus!
