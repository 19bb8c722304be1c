//! Error reporting for formula compilation and evaluation: a closed set of
//! error kinds, each optionally tied to a location in the formula source, and
//! the exact text shown to a user for each of them.

mod decimal;
mod errors;
mod span;

pub use decimal::{decimal_text, digit_char, push_decimal};
pub use errors::{
    error_text, internal_error, internal_error_text, internal_error_value,
    lemma_rendering_deterministic, msg_text, opt_text, pair_text, same_payload, FormulaError,
    FormulaErrorMsg,
};
pub use span::Span;
