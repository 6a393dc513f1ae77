//! Parsing of macro-by-example patterns and templates (`$var:kind` captures
//! and `$(...)sep*` repetitions) out of token trees.

use vstd::prelude::*;

pub mod tt;
pub mod punct_vec;
pub mod parser;
pub mod lemmas;
pub mod lint;

verus! {

/// Why a pattern or template was rejected.
#[derive(Debug, PartialEq, Eq)]
pub enum ParseError {
    UnexpectedToken(String),
    Expected(String),
    InvalidRepeat,
}

/// A `ParseError` with its detail text as a sequence of characters.
pub enum ParseErrorView {
    UnexpectedToken(Seq<char>),
    Expected(Seq<char>),
    InvalidRepeat,
}

impl View for ParseError {
    type V = ParseErrorView;

    open spec fn view(&self) -> ParseErrorView {
        match self {
            ParseError::UnexpectedToken(s) => ParseErrorView::UnexpectedToken(s@),
            ParseError::Expected(s) => ParseErrorView::Expected(s@),
            ParseError::InvalidRepeat => ParseErrorView::InvalidRepeat,
        }
    }
}

} // verus!
