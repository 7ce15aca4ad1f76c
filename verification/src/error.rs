//! The error taxonomy of the extraction layer.
//!
//! Every failure of extraction is one of these variants; extraction is
//! fail-fast, so the first error met is the one returned, unchanged, all the
//! way up.

use vstd::prelude::*;

verus! {

use crate::value::{kind_text, Value};

/// The mathematical image of an [`Error`]: each text field as its character
/// sequence.
pub enum ErrorView {
    DocumentParseError(Seq<char>),
    MissingKey(Seq<char>),
    InvalidType { expected: Seq<char>, actual: Seq<char> },
    InvalidColorSpace { expected: Seq<char>, actual: Seq<char> },
    UnknownColorSpace(Seq<char>),
}

/// Why an extraction failed.
#[derive(Debug)]
pub enum Error {
    /// The document could not be parsed at all; holds the parser's message.
    DocumentParseError(String),
    /// A required dictionary key was absent; holds the key.
    MissingKey(String),
    /// A value was present but of the wrong leaf kind.
    InvalidType { expected: String, actual: String },
    /// A "Color Space" value did not equal the label this context requires.
    InvalidColorSpace { expected: String, actual: String },
    /// A well-formed but unsupported color-space label.
    UnknownColorSpace(String),
}

impl View for Error {
    type V = ErrorView;

    open spec fn view(&self) -> ErrorView {
        match self {
            Error::DocumentParseError(s) => ErrorView::DocumentParseError(s@),
            Error::MissingKey(s) => ErrorView::MissingKey(s@),
            Error::InvalidType { expected, actual } => ErrorView::InvalidType {
                expected: expected@,
                actual: actual@,
            },
            Error::InvalidColorSpace { expected, actual } => ErrorView::InvalidColorSpace {
                expected: expected@,
                actual: actual@,
            },
            Error::UnknownColorSpace(s) => ErrorView::UnknownColorSpace(s@),
        }
    }
}

/// The text of an error, by variant.
pub open spec fn message_text(e: ErrorView) -> Seq<char> {
    match e {
        ErrorView::DocumentParseError(s) => "PList parsing error: "@ + s,
        ErrorView::MissingKey(s) => "Dictionary did not contain key: "@ + s,
        ErrorView::InvalidType { expected, actual } => "Expected value of type "@ + expected
            + ", but found value of type "@ + actual,
        ErrorView::InvalidColorSpace { expected, actual } => "Expected color space "@ + expected
            + ", but found "@ + actual,
        ErrorView::UnknownColorSpace(s) => "Unknown color space "@ + s,
    }
}

impl Error {
    /// The wrong-kind error for a value: names the kind that was wanted and
    /// the kind that was found.
    pub fn invalid_type(expected: &str, actual: &Value) -> (e: Error)
        ensures
            e@ == (ErrorView::InvalidType { expected: expected@, actual: kind_text(*actual) }),
    {
        Error::InvalidType {
            expected: String::from_str(expected),
            actual: String::from_str(actual.kind_name()),
        }
    }

    /// One line describing the error.
    pub fn message(&self) -> (r: String)
        ensures
            r@ == message_text(self@),
    {
        match self {
            Error::DocumentParseError(s) => {
                let mut m = String::from_str("PList parsing error: ");
                m.append(s.as_str());
                m
            },
            Error::MissingKey(s) => {
                let mut m = String::from_str("Dictionary did not contain key: ");
                m.append(s.as_str());
                m
            },
            Error::InvalidType { expected, actual } => {
                let mut m = String::from_str("Expected value of type ");
                m.append(expected.as_str());
                m.append(", but found value of type ");
                m.append(actual.as_str());
                m
            },
            Error::InvalidColorSpace { expected, actual } => {
                let mut m = String::from_str("Expected color space ");
                m.append(expected.as_str());
                m.append(", but found ");
                m.append(actual.as_str());
                m
            },
            Error::UnknownColorSpace(s) => {
                let mut m = String::from_str("Unknown color space ");
                m.append(s.as_str());
                m
            },
        }
    }
}

} // verus!
