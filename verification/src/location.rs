//! Canonical start/end line-column locations, and the normalization of the
//! two upstream failure reports (point-or-span line/column pairs, together
//! with a message variant) into one error record.

use vstd::prelude::*;

verus! {

/// A region of text, as 1-based start/end line and column numbers.
/// A point is represented with start equal to end.
#[derive(Clone, Copy, Debug, PartialEq, Eq, Structural)]
pub struct Location {
    pub start_line: usize,
    pub start_col: usize,
    pub end_line: usize,
    pub end_col: usize,
}

/// A line/column report exactly as the underlying parser hands it out:
/// either a single point or a start/end pair.
#[derive(Clone, Copy, Debug, PartialEq, Eq, Structural)]
pub enum RawSpan {
    Pos { line: usize, col: usize },
    Span { start_line: usize, start_col: usize, end_line: usize, end_col: usize },
}

/// The message variant of an underlying error, as an exhaustive tagged union.
/// After rule renaming the parser only ever reports `Custom`; any other
/// variant is kept as the distinct `Unexpected` tag instead of being assumed
/// away.
#[derive(Debug)]
pub enum RawVariant {
    Custom { message: String },
    Unexpected,
}

/// One failure as reported by the underlying parser, reduced to plain data.
#[derive(Debug)]
pub struct RawError {
    pub variant: RawVariant,
    pub span: RawSpan,
}

/// How a point-or-span report normalizes: a point expands to start == end,
/// a span keeps its two endpoints.
pub open spec fn location_of_raw_span(s: RawSpan) -> Location {
    match s {
        RawSpan::Pos { line, col } => Location {
            start_line: line,
            start_col: col,
            end_line: line,
            end_col: col,
        },
        RawSpan::Span { start_line, start_col, end_line, end_col } => Location {
            start_line,
            start_col,
            end_line,
            end_col,
        },
    }
}

impl Location {
    /// Normalizes a point-or-span report into the canonical record.
    pub fn from_raw_span(s: RawSpan) -> (r: Location)
        ensures
            r == location_of_raw_span(s),
    {
        match s {
            RawSpan::Pos { line, col } => Location {
                start_line: line,
                start_col: col,
                end_line: line,
                end_col: col,
            },
            RawSpan::Span { start_line, start_col, end_line, end_col } => Location {
                start_line,
                start_col,
                end_line,
                end_col,
            },
        }
    }
}

/// One compiler- or matcher-stage failure, normalized: a human-readable
/// message and a canonical location.
#[derive(Debug)]
pub struct PestGrammarError {
    pub message: String,
    pub location: Location,
}

/// The message used when the underlying parser reports a variant it never
/// reports after rule renaming; surfacing it keeps such a failure visible
/// instead of silently swallowed.
pub open spec fn unexpected_variant_message() -> Seq<char> {
    "internal: unexpected error variant from the grammar engine"@
}

impl PestGrammarError {
    /// The exact relation between a normalized error and the raw report it
    /// came from.
    pub open spec fn is_normalization_of(self, raw: RawError) -> bool {
        &&& self.location == location_of_raw_span(raw.span)
        &&& match raw.variant {
            RawVariant::Custom { message } => self.message@ == message@,
            RawVariant::Unexpected => self.message@ == unexpected_variant_message(),
        }
    }

    /// Normalizes one raw failure report: the message is carried through,
    /// an unexpected variant becomes a distinct fatal message, and the
    /// point-or-span location becomes a canonical `Location`.
    pub fn from_raw(raw: RawError) -> (r: PestGrammarError)
        ensures
            r.is_normalization_of(raw),
    {
        let location = Location::from_raw_span(raw.span);
        let message = match raw.variant {
            RawVariant::Custom { message } => message,
            RawVariant::Unexpected => {
                "internal: unexpected error variant from the grammar engine".to_owned()
            },
        };
        PestGrammarError { message, location }
    }
}

} // verus!
