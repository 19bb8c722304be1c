use std::borrow::Cow;
use vstd::prelude::*;

use crate::decimal::{decimal_text, push_decimal};
use crate::span::Span;

verus! {

/// What went wrong while compiling or evaluating a formula.
///
/// The set of kinds is closed: every function here that looks at a kind
/// matches on all of them, with no catch-all arm, so a new kind cannot be
/// added without giving it a message.
#[derive(Debug, PartialEq, Eq)]
#[allow(inconsistent_fields)]
pub enum FormulaErrorMsg {
    // Miscellaneous errors
    Unimplemented,
    UnknownError,
    InternalError(Cow<'static, str>),
    // Compile errors
    Unterminated(&'static str),
    Expected { expected: Cow<'static, str>, got: Option<Cow<'static, str>> },
    ArraySizeMismatch { expected: (usize, usize), got: (usize, usize) },
    NonRectangularArray,
    BadArgumentCount,
    BadFunctionName,
    BadCellReference,
    BadNumber,
    // Runtime errors
    CircularReference,
    Overflow,
    DivideByZero,
    NegativeExponent,
    IndexOutOfBounds,
}

/// An error kind together with the place in the source where it arose, if
/// that place is known.
#[derive(Debug)]
pub struct FormulaError {
    /// Location of the source code where the error occurred (if any).
    pub span: Option<Span>,
    /// Type of error.
    pub msg: FormulaErrorMsg,
}

/// A shape written as a tuple, as `(2, 3)`.
pub open spec fn pair_text(p: (usize, usize)) -> Seq<char> {
    "("@ + decimal_text(p.0 as nat) + ", "@ + decimal_text(p.1 as nat) + ")"@
}

/// The message of an internal error whose own text is `s`: that text on the
/// first line, and on the second a plea to report the defect.
pub open spec fn internal_error_text(s: Seq<char>) -> Seq<char> {
    "Internal error: "@ + s
        + "\nThis is a bug in Quadratic, not your formula. Please report this to us!"@
}

/// The text shown to a user for an error kind.
pub open spec fn msg_text(m: FormulaErrorMsg) -> Seq<char> {
    match m {
        FormulaErrorMsg::Unimplemented => "This feature is unimplemented"@,
        FormulaErrorMsg::UnknownError => "(unknown error)"@,
        FormulaErrorMsg::InternalError(s) => internal_error_text(s@),
        FormulaErrorMsg::Unterminated(s) => "This "@ + s@ + " never ends"@,
        FormulaErrorMsg::Expected { expected, got } => match got {
            Some(g) => "Expected "@ + expected@ + ", got "@ + g@,
            None => "Expected "@ + expected@,
        },
        FormulaErrorMsg::ArraySizeMismatch { expected, got } => "Array size mismatch: expected "@
            + pair_text(expected) + ", got "@ + pair_text(got),
        FormulaErrorMsg::NonRectangularArray => "Array must be rectangular"@,
        FormulaErrorMsg::BadArgumentCount => "Bad argument count"@,
        FormulaErrorMsg::BadFunctionName => "There is no function with this name"@,
        FormulaErrorMsg::BadCellReference => "Bad cell reference"@,
        FormulaErrorMsg::BadNumber => "Bad numeric literal"@,
        FormulaErrorMsg::CircularReference => "Circular reference"@,
        FormulaErrorMsg::Overflow => "Numeric overflow"@,
        FormulaErrorMsg::DivideByZero => "Divide by zero"@,
        FormulaErrorMsg::NegativeExponent => "Negative exponent"@,
        FormulaErrorMsg::IndexOutOfBounds => "Index out of bounds"@,
    }
}

/// The text shown to a user for an error: the kind's message, behind the
/// columns it covers when its location is known.
pub open spec fn error_text(e: FormulaError) -> Seq<char> {
    match e.span {
        Some(s) => "column "@ + decimal_text(s.start as nat) + " to "@ + decimal_text(s.end as nat)
            + ": "@ + msg_text(e.msg),
        None => msg_text(e.msg),
    }
}

/// The text of an optional message part.
pub open spec fn opt_text(o: Option<Cow<'static, str>>) -> Option<Seq<char>> {
    match o {
        Some(c) => Some(c@),
        None => None,
    }
}

/// Whether two error kinds are the same kind with the same payload, text
/// compared by its characters however it is held.
pub open spec fn same_payload(a: FormulaErrorMsg, b: FormulaErrorMsg) -> bool {
    match a {
        FormulaErrorMsg::Unimplemented => b is Unimplemented,
        FormulaErrorMsg::UnknownError => b is UnknownError,
        FormulaErrorMsg::InternalError(s) => b matches FormulaErrorMsg::InternalError(t) && s@
            == t@,
        FormulaErrorMsg::Unterminated(s) => b matches FormulaErrorMsg::Unterminated(t) && s@ == t@,
        FormulaErrorMsg::Expected { expected, got } => b matches FormulaErrorMsg::Expected {
            expected: e,
            got: g,
        } && expected@ == e@ && opt_text(got) == opt_text(g),
        FormulaErrorMsg::ArraySizeMismatch { expected, got } => b matches FormulaErrorMsg::ArraySizeMismatch {
            expected: e,
            got: g,
        } && expected == e && got == g,
        FormulaErrorMsg::NonRectangularArray => b is NonRectangularArray,
        FormulaErrorMsg::BadArgumentCount => b is BadArgumentCount,
        FormulaErrorMsg::BadFunctionName => b is BadFunctionName,
        FormulaErrorMsg::BadCellReference => b is BadCellReference,
        FormulaErrorMsg::BadNumber => b is BadNumber,
        FormulaErrorMsg::CircularReference => b is CircularReference,
        FormulaErrorMsg::Overflow => b is Overflow,
        FormulaErrorMsg::DivideByZero => b is DivideByZero,
        FormulaErrorMsg::NegativeExponent => b is NegativeExponent,
        FormulaErrorMsg::IndexOutOfBounds => b is IndexOutOfBounds,
    }
}

/// Rendering depends on nothing but the kind and its payload: two kinds with
/// the same payload, whether its text is borrowed or owned, render to the same
/// text, and so rendering one kind twice gives the same text twice.
pub proof fn lemma_rendering_deterministic(a: FormulaErrorMsg, b: FormulaErrorMsg)
    requires
        same_payload(a, b),
    ensures
        msg_text(a) == msg_text(b),
{
}

/// The characters of a message, however it is held.
fn cow_str<'a>(c: &'a Cow<'static, str>) -> (r: &'a str)
    ensures
        r@ == c@,
{
    match c {
        Cow::Borrowed(b) => b,
        Cow::Owned(o) => o.as_str(),
    }
}

/// A copy of a message: the same borrowed text, or a copy of the owned one.
fn clone_cow(c: &Cow<'static, str>) -> (r: Cow<'static, str>)
    ensures
        r == *c,
{
    match c {
        Cow::Borrowed(b) => Cow::Borrowed(*b),
        Cow::Owned(o) => Cow::Owned(o.clone()),
    }
}

impl Clone for FormulaErrorMsg {
    fn clone(&self) -> (r: Self)
        ensures
            r == *self,
    {
        match self {
            FormulaErrorMsg::Unimplemented => FormulaErrorMsg::Unimplemented,
            FormulaErrorMsg::UnknownError => FormulaErrorMsg::UnknownError,
            FormulaErrorMsg::InternalError(s) => FormulaErrorMsg::InternalError(clone_cow(s)),
            FormulaErrorMsg::Unterminated(s) => FormulaErrorMsg::Unterminated(*s),
            FormulaErrorMsg::Expected { expected, got } => FormulaErrorMsg::Expected {
                expected: clone_cow(expected),
                got: match got {
                    Some(g) => Some(clone_cow(g)),
                    None => None,
                },
            },
            FormulaErrorMsg::ArraySizeMismatch { expected, got } => {
                FormulaErrorMsg::ArraySizeMismatch { expected: *expected, got: *got }
            },
            FormulaErrorMsg::NonRectangularArray => FormulaErrorMsg::NonRectangularArray,
            FormulaErrorMsg::BadArgumentCount => FormulaErrorMsg::BadArgumentCount,
            FormulaErrorMsg::BadFunctionName => FormulaErrorMsg::BadFunctionName,
            FormulaErrorMsg::BadCellReference => FormulaErrorMsg::BadCellReference,
            FormulaErrorMsg::BadNumber => FormulaErrorMsg::BadNumber,
            FormulaErrorMsg::CircularReference => FormulaErrorMsg::CircularReference,
            FormulaErrorMsg::Overflow => FormulaErrorMsg::Overflow,
            FormulaErrorMsg::DivideByZero => FormulaErrorMsg::DivideByZero,
            FormulaErrorMsg::NegativeExponent => FormulaErrorMsg::NegativeExponent,
            FormulaErrorMsg::IndexOutOfBounds => FormulaErrorMsg::IndexOutOfBounds,
        }
    }
}

impl Clone for FormulaError {
    fn clone(&self) -> (r: Self)
        ensures
            r == *self,
    {
        FormulaError { span: self.span, msg: self.msg.clone() }
    }
}

/// Appends a shape, written as a tuple, to `out`.
fn push_pair(out: &mut String, p: (usize, usize))
    ensures
        final(out)@ == old(out)@ + pair_text(p),
{
    out.append("(");
    push_decimal(out, p.0);
    out.append(", ");
    push_decimal(out, p.1);
    out.append(")");
}

impl FormulaErrorMsg {
    /// Appends the message of this kind to `out`.
    pub fn write_text(&self, out: &mut String)
        ensures
            final(out)@ == old(out)@ + msg_text(*self),
    {
        match self {
            FormulaErrorMsg::Unimplemented => out.append("This feature is unimplemented"),
            FormulaErrorMsg::UnknownError => out.append("(unknown error)"),
            FormulaErrorMsg::InternalError(s) => {
                out.append("Internal error: ");
                out.append(cow_str(s));
                out.append(
                    "\nThis is a bug in Quadratic, not your formula. Please report this to us!",
                );
            },
            FormulaErrorMsg::Unterminated(s) => {
                out.append("This ");
                out.append(s);
                out.append(" never ends");
            },
            FormulaErrorMsg::Expected { expected, got } => {
                out.append("Expected ");
                out.append(cow_str(expected));
                match got {
                    Some(g) => {
                        out.append(", got ");
                        out.append(cow_str(g));
                    },
                    None => {},
                }
            },
            FormulaErrorMsg::ArraySizeMismatch { expected, got } => {
                out.append("Array size mismatch: expected ");
                push_pair(out, *expected);
                out.append(", got ");
                push_pair(out, *got);
            },
            FormulaErrorMsg::NonRectangularArray => out.append("Array must be rectangular"),
            FormulaErrorMsg::BadArgumentCount => out.append("Bad argument count"),
            FormulaErrorMsg::BadFunctionName => out.append("There is no function with this name"),
            FormulaErrorMsg::BadCellReference => out.append("Bad cell reference"),
            FormulaErrorMsg::BadNumber => out.append("Bad numeric literal"),
            FormulaErrorMsg::CircularReference => out.append("Circular reference"),
            FormulaErrorMsg::Overflow => out.append("Numeric overflow"),
            FormulaErrorMsg::DivideByZero => out.append("Divide by zero"),
            FormulaErrorMsg::NegativeExponent => out.append("Negative exponent"),
            FormulaErrorMsg::IndexOutOfBounds => out.append("Index out of bounds"),
        }
        proof {
            assert(out@ =~= old(out)@ + msg_text(*self));
        }
    }

    /// The message of this kind.
    pub fn to_string(&self) -> (r: String)
        ensures
            r@ == msg_text(*self),
    {
        let mut out = String::new();
        self.write_text(&mut out);
        proof {
            assert(out@ =~= msg_text(*self));
        }
        out
    }

    /// Attaches a span to this error message, returning a FormulaError.
    pub fn with_span(self, span: Span) -> (r: FormulaError)
        ensures
            r == (FormulaError { span: Some(span), msg: self }),
    {
        FormulaError { span: Some(span), msg: self }
    }

    /// Returns a FormulaError from this error message, without a span.
    pub fn without_span(self) -> (r: FormulaError)
        ensures
            r == (FormulaError { span: None, msg: self }),
    {
        FormulaError { span: None, msg: self }
    }
}

impl FormulaError {
    /// Attaches a span to this FormulaError, if it does not already have one.
    /// A span once attached stays: the first location found is kept.
    pub fn with_span(self, span: Span) -> (r: FormulaError)
        ensures
            r.msg == self.msg,
            self.span is Some ==> r.span == self.span,
            self.span is None ==> r.span == Some(span),
    {
        let mut e = self;
        if e.span.is_none() {
            e.span = Some(span);
        }
        e
    }

    /// Appends the text of this error to `out`.
    pub fn write_text(&self, out: &mut String)
        ensures
            final(out)@ == old(out)@ + error_text(*self),
    {
        match self.span {
            Some(s) => {
                out.append("column ");
                push_decimal(out, s.start as usize);
                out.append(" to ");
                push_decimal(out, s.end as usize);
                out.append(": ");
            },
            None => {},
        }
        self.msg.write_text(out);
        proof {
            assert(out@ =~= old(out)@ + error_text(*self));
        }
    }

    /// The text of this error: with a span, `column {start} to {end}: ` and
    /// then the message of its kind; without one, that message alone.
    pub fn to_string(&self) -> (r: String)
        ensures
            r@ == error_text(*self),
            self.span matches Some(s) ==> r@ == "column "@ + decimal_text(s.start as nat) + " to "@
                + decimal_text(s.end as nat) + ": "@ + msg_text(self.msg),
            self.span is None ==> r@ == msg_text(self.msg),
    {
        let mut out = String::new();
        self.write_text(&mut out);
        proof {
            assert(out@ =~= error_text(*self));
        }
        out
    }
}

impl From<FormulaErrorMsg> for FormulaError {
    /// An error of the given kind, with no span.
    fn from(msg: FormulaErrorMsg) -> (r: FormulaError)
        ensures
            r == (FormulaError { span: None, msg }),
    {
        msg.without_span()
    }
}

impl vstd::std_specs::convert::FromSpecImpl<FormulaErrorMsg> for FormulaError {
    open spec fn obeys_from_spec() -> bool {
        true
    }

    open spec fn from_spec(msg: FormulaErrorMsg) -> FormulaError {
        FormulaError { span: None, msg }
    }
}

/// The error reported for a defect in the engine itself rather than a
/// mistake in a formula: kind `InternalError` with the given text, no span.
///
/// This is the form for builds that reach users, where such a defect must
/// never halt the program; a development build may halt instead, before
/// calling this. The result must not be thrown away.
#[must_use]
pub fn internal_error_value(msg: Cow<'static, str>) -> (r: FormulaError)
    ensures
        r == (FormulaError { span: None, msg: FormulaErrorMsg::InternalError(msg) }),
        error_text(r) == internal_error_text(msg@),
{
    FormulaErrorMsg::InternalError(msg).without_span()
}

/// The failure outcome for a defect in the engine: `Err` of the error that
/// `internal_error_value` builds, for an operation to return at once.
pub fn internal_error<T>(msg: Cow<'static, str>) -> (r: Result<T, FormulaError>)
    ensures
        r == Err::<T, FormulaError>(
            FormulaError { span: None, msg: FormulaErrorMsg::InternalError(msg) },
        ),
{
    Err(internal_error_value(msg))
}

} // verus!
