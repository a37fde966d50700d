//! The closed classification of tokens, and its string mapping.

use vstd::prelude::*;

use crate::errors::Error;
use crate::errors::ErrorView;
use crate::strutil::str_eq;

verus! {

/// The closed set of token classifications.
#[derive(Debug, Clone, Copy, PartialEq, Eq, Structural)]
pub enum TokenType {
    PostalBox,
    Cardinal,
    Number,
    Ordinal,
    Unit,
    Way,
}

/// The fixed, case-sensitive mapping from a raw `type` string to a token
/// type; `None` for any string outside the closed set.
pub open spec fn token_type_of(s: Seq<char>) -> Option<TokenType> {
    if s == "box"@ {
        Some(TokenType::PostalBox)
    } else if s == "cardinal"@ {
        Some(TokenType::Cardinal)
    } else if s == "number"@ {
        Some(TokenType::Number)
    } else if s == "ordinal"@ {
        Some(TokenType::Ordinal)
    } else if s == "unit"@ {
        Some(TokenType::Unit)
    } else if s == "way"@ {
        Some(TokenType::Way)
    } else {
        None
    }
}

impl TokenType {
    /// Maps a raw `type` string to its token type, rejecting any string
    /// outside the closed set.
    pub fn from_str(s: &str) -> (r: Result<TokenType, Error>)
        ensures
            match token_type_of(s@) {
                Some(t) => r == Ok::<TokenType, Error>(t),
                None => (r matches Err(e) && e@ == ErrorView::TokenTypeNotSupported(s@)),
            },
    {
        if str_eq(s, "box") {
            Ok(TokenType::PostalBox)
        } else if str_eq(s, "cardinal") {
            Ok(TokenType::Cardinal)
        } else if str_eq(s, "number") {
            Ok(TokenType::Number)
        } else if str_eq(s, "ordinal") {
            Ok(TokenType::Ordinal)
        } else if str_eq(s, "unit") {
            Ok(TokenType::Unit)
        } else if str_eq(s, "way") {
            Ok(TokenType::Way)
        } else {
            Err(Error::TokenTypeNotSupported(s.to_owned()))
        }
    }
}

} // verus!
