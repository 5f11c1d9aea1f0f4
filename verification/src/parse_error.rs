use vstd::prelude::*;
use vstd::string::StringExecFns;

verus! {

/// Why a [`CsvRow`](crate::csv_row::CsvRow) could not become an
/// [`Instruction`](crate::domain::Instruction). Such rows are skipped, not fatal.
#[derive(Debug)]
pub enum ParseError {
    UnknownType(String),
    MissingAmount,
}

/// A [`ParseError`] with its text as a sequence of characters.
pub enum ParseErrorView {
    UnknownType(Seq<char>),
    MissingAmount,
}

impl View for ParseError {
    type V = ParseErrorView;

    open spec fn view(&self) -> ParseErrorView {
        match self {
            ParseError::UnknownType(kind) => ParseErrorView::UnknownType(kind@),
            ParseError::MissingAmount => ParseErrorView::MissingAmount,
        }
    }
}

/// The characters of `format!("{:?}", s)` for a string with characters `s`:
/// quoted and escaped.
pub uninterp spec fn debug_quoted(s: Seq<char>) -> Seq<char>;

/// `s` in its quoted, escaped debug form.
#[verifier::external_body]
fn debug_quote(s: &str) -> (r: String)
    ensures
        r@ == debug_quoted(s@),
{
    format!("{:?}", s)
}

/// The human-readable message for an error.
pub open spec fn message_of(e: ParseErrorView) -> Seq<char> {
    match e {
        ParseErrorView::UnknownType(kind) => "unknown instruction type "@ + debug_quoted(kind),
        ParseErrorView::MissingAmount => "a deposit/withdrawal row is missing its amount"@,
    }
}

impl ParseError {
    /// The human-readable message: `unknown instruction type "<type>"` or
    /// `a deposit/withdrawal row is missing its amount`.
    pub fn message(&self) -> (r: String)
        ensures
            r@ == message_of(self@),
    {
        match self {
            ParseError::UnknownType(kind) => {
                let quoted = debug_quote(kind.as_str());
                let prefix = String::from_str("unknown instruction type ");
                prefix.concat(quoted.as_str())
            },
            ParseError::MissingAmount => String::from_str(
                "a deposit/withdrawal row is missing its amount",
            ),
        }
    }
}

} // verus!
