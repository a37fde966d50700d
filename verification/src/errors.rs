//! The typed errors that catalog building can report.

use vstd::prelude::*;

use crate::strutil::str_eq;

verus! {

/// Everything that can go wrong while building a token catalog.
#[derive(Debug)]
pub enum Error {
    /// The caller requested a language code outside the fixed registry.
    LanguageCodeNotSupported(String),
    /// The token source provider was asked for a code it cannot resolve.
    TokenFileImportNotSupported(String),
    /// A record's `type` field does not match the closed token-type set.
    TokenTypeNotSupported(String),
    /// A requested pattern failed to compile for a reason other than
    /// look-around use.
    RegexError(String),
    /// The raw token data does not have the expected structure.
    ParseError(String),
}

/// The mathematical shape of an [`Error`]: the same variants over
/// character sequences.
pub enum ErrorView {
    LanguageCodeNotSupported(Seq<char>),
    TokenFileImportNotSupported(Seq<char>),
    TokenTypeNotSupported(Seq<char>),
    RegexError(Seq<char>),
    ParseError(Seq<char>),
}

impl View for Error {
    type V = ErrorView;

    open spec fn view(&self) -> ErrorView {
        match self {
            Error::LanguageCodeNotSupported(s) => ErrorView::LanguageCodeNotSupported(s@),
            Error::TokenFileImportNotSupported(s) => ErrorView::TokenFileImportNotSupported(s@),
            Error::TokenTypeNotSupported(s) => ErrorView::TokenTypeNotSupported(s@),
            Error::RegexError(s) => ErrorView::RegexError(s@),
            Error::ParseError(s) => ErrorView::ParseError(s@),
        }
    }
}

impl PartialEq for Error {
    fn eq(&self, other: &Self) -> (r: bool) {
        match (self, other) {
            (Error::LanguageCodeNotSupported(a), Error::LanguageCodeNotSupported(b)) => {
                str_eq(a.as_str(), b.as_str())
            },
            (Error::TokenFileImportNotSupported(a), Error::TokenFileImportNotSupported(b)) => {
                str_eq(a.as_str(), b.as_str())
            },
            (Error::TokenTypeNotSupported(a), Error::TokenTypeNotSupported(b)) => {
                str_eq(a.as_str(), b.as_str())
            },
            (Error::RegexError(a), Error::RegexError(b)) => str_eq(a.as_str(), b.as_str()),
            (Error::ParseError(a), Error::ParseError(b)) => str_eq(a.as_str(), b.as_str()),
            _ => false,
        }
    }
}

impl vstd::std_specs::cmp::PartialEqSpecImpl for Error {
    open spec fn obeys_eq_spec() -> bool {
        true
    }

    open spec fn eq_spec(&self, other: &Self) -> bool {
        self@ == other@
    }
}

} // verus!
