use vstd::prelude::*;

verus! {

/// A half-open range `[start, end)` of character offsets into the source text
/// of a formula, used only to point a user at the place where an error arose.
#[derive(Debug, Clone, Copy, PartialEq, Eq, Structural, Hash)]
pub struct Span {
    /// Offset of the first character covered.
    pub start: u32,
    /// Offset one past the last character covered.
    pub end: u32,
}

} // verus!
