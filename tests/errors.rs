use std::borrow::Cow;

use formula_errors::{internal_error, internal_error_value, FormulaError, FormulaErrorMsg, Span};

fn all_kinds() -> Vec<FormulaErrorMsg> {
    vec![
        FormulaErrorMsg::Unimplemented,
        FormulaErrorMsg::UnknownError,
        FormulaErrorMsg::InternalError(Cow::Borrowed("oops")),
        FormulaErrorMsg::Unterminated("string literal"),
        FormulaErrorMsg::Expected { expected: Cow::Borrowed("a number"), got: None },
        FormulaErrorMsg::ArraySizeMismatch { expected: (1, 2), got: (3, 4) },
        FormulaErrorMsg::NonRectangularArray,
        FormulaErrorMsg::BadArgumentCount,
        FormulaErrorMsg::BadFunctionName,
        FormulaErrorMsg::BadCellReference,
        FormulaErrorMsg::BadNumber,
        FormulaErrorMsg::CircularReference,
        FormulaErrorMsg::Overflow,
        FormulaErrorMsg::DivideByZero,
        FormulaErrorMsg::NegativeExponent,
        FormulaErrorMsg::IndexOutOfBounds,
    ]
}

#[test]
fn expected_with_got_renders_both() {
    let e = FormulaErrorMsg::Expected {
        expected: Cow::Borrowed("a number"),
        got: Some(Cow::Borrowed("a string")),
    }
    .without_span();
    assert_eq!(e.to_string(), "Expected a number, got a string");
}

#[test]
fn expected_without_got_renders_expectation_only() {
    let m = FormulaErrorMsg::Expected { expected: Cow::Owned("a comma".to_string()), got: None };
    assert_eq!(m.to_string(), "Expected a comma");
}

#[test]
fn array_size_mismatch_with_span() {
    let e = FormulaErrorMsg::ArraySizeMismatch { expected: (2, 3), got: (2, 2) }
        .with_span(Span { start: 5, end: 9 });
    let text = e.to_string();
    assert!(text.starts_with("column 5 to 9: Array size mismatch: expected (2, 3), got (2, 2)"));
    assert_eq!(text, "column 5 to 9: Array size mismatch: expected (2, 3), got (2, 2)");
}

#[test]
fn array_size_mismatch_matches_debug_tuples() {
    let expected = (0usize, 1234567usize);
    let got = (usize::MAX, 10usize);
    let m = FormulaErrorMsg::ArraySizeMismatch { expected, got };
    assert_eq!(
        m.to_string(),
        format!("Array size mismatch: expected {expected:?}, got {got:?}")
    );
}

#[test]
fn divide_by_zero_without_span() {
    let e = FormulaErrorMsg::DivideByZero.without_span();
    assert_eq!(e.to_string(), "Divide by zero");
}

#[test]
fn every_kind_has_its_message() {
    let texts: Vec<String> = all_kinds().iter().map(|m| m.to_string()).collect();
    assert_eq!(
        texts,
        vec![
            "This feature is unimplemented",
            "(unknown error)",
            "Internal error: oops\nThis is a bug in Quadratic, not your formula. Please report this to us!",
            "This string literal never ends",
            "Expected a number",
            "Array size mismatch: expected (1, 2), got (3, 4)",
            "Array must be rectangular",
            "Bad argument count",
            "There is no function with this name",
            "Bad cell reference",
            "Bad numeric literal",
            "Circular reference",
            "Numeric overflow",
            "Divide by zero",
            "Negative exponent",
            "Index out of bounds",
        ]
    );
}

#[test]
fn rendering_twice_gives_the_same_text() {
    for m in all_kinds() {
        assert_eq!(m.to_string(), m.to_string());
        let e = m.clone().with_span(Span { start: 3, end: 4 });
        assert_eq!(e.to_string(), e.to_string());
    }
}

#[test]
fn borrowed_and_owned_payloads_render_alike() {
    let a = FormulaErrorMsg::InternalError(Cow::Borrowed("bad tag 7"));
    let b = FormulaErrorMsg::InternalError(Cow::Owned(format!("bad tag {}", 7)));
    assert_eq!(a.to_string(), b.to_string());
}

#[test]
fn with_span_keeps_an_existing_span() {
    let e = FormulaErrorMsg::Overflow.with_span(Span { start: 1, end: 2 });
    let e = e.with_span(Span { start: 10, end: 20 });
    assert_eq!(e.span, Some(Span { start: 1, end: 2 }));
    assert_eq!(e.msg, FormulaErrorMsg::Overflow);
}

#[test]
fn with_span_sets_an_absent_span() {
    let e = FormulaErrorMsg::BadNumber.without_span();
    assert_eq!(e.span, None);
    let e = e.with_span(Span { start: 7, end: 11 });
    assert_eq!(e.span, Some(Span { start: 7, end: 11 }));
    assert_eq!(e.msg, FormulaErrorMsg::BadNumber);
}

#[test]
fn display_with_and_without_span() {
    let m = FormulaErrorMsg::BadCellReference;
    assert_eq!(m.clone().without_span().to_string(), "Bad cell reference");
    assert_eq!(
        m.clone().with_span(Span { start: 0, end: 0 }).to_string(),
        "column 0 to 0: Bad cell reference"
    );
    assert_eq!(
        m.with_span(Span { start: 4294967295, end: 4294967295 }).to_string(),
        "column 4294967295 to 4294967295: Bad cell reference"
    );
}

#[test]
fn conversion_from_kind_has_no_span() {
    for m in all_kinds() {
        let e: FormulaError = FormulaError::from(m.clone());
        assert_eq!(e.span, None);
        assert_eq!(e.msg, m);
        assert_eq!(e.to_string(), m.to_string());
    }
    let e: FormulaError = FormulaErrorMsg::NegativeExponent.into();
    assert_eq!(e.span, None);
}

#[test]
fn internal_error_value_returns_error() {
    let e = internal_error_value(Cow::Borrowed("unreachable branch X"));
    assert_eq!(e.span, None);
    assert_eq!(e.msg, FormulaErrorMsg::InternalError(Cow::Borrowed("unreachable branch X")));
    let text = e.to_string();
    assert!(text.contains("unreachable branch X"));
    assert!(text.contains("This is a bug in Quadratic, not your formula. Please report this to us!"));
}

#[test]
fn internal_error_fails_the_operation() {
    let r: Result<u32, FormulaError> = internal_error(Cow::Owned(format!("index {}", 12)));
    match r {
        Err(e) => {
            assert_eq!(e.span, None);
            assert_eq!(e.msg, FormulaErrorMsg::InternalError(Cow::Borrowed("index 12")));
        }
        Ok(_) => panic!("an internal error must fail"),
    }
}

#[test]
fn clone_keeps_kind_and_span() {
    let e = FormulaErrorMsg::Expected {
        expected: Cow::Owned("a closing bracket".to_string()),
        got: Some(Cow::Borrowed("end of input")),
    }
    .with_span(Span { start: 2, end: 6 });
    let c = e.clone();
    assert_eq!(c.span, e.span);
    assert_eq!(c.msg, e.msg);
    assert_eq!(c.to_string(), "column 2 to 6: Expected a closing bracket, got end of input");
}
