//! Errors of the library.

use vstd::prelude::*;

verus! {

/// What can go wrong when resolving a language, parsing, or building a node.
#[derive(Debug, Clone, PartialEq, Eq)]
pub enum Error {
    /// The language name was not recognised; holds the input verbatim.
    UnsupportedLanguage(String),
    /// The source text could not be parsed.
    ParseError(String),
    /// A navigation request could not be served.
    NavigationError(String),
    /// The grammar engine failed.
    TreeSitterError(String),
    /// A node's span breaks its ordering invariant.
    InvalidNode(String),
}

impl Error {
    /// Holds exactly when `self` reports `input` as an unsupported language.
    pub open spec fn is_unsupported_language(self, input: Seq<char>) -> bool {
        match self {
            Error::UnsupportedLanguage(s) => s@ == input,
            _ => false,
        }
    }

    /// Holds exactly when `self` reports an invalid node.
    pub open spec fn is_invalid_node(self) -> bool {
        self is InvalidNode
    }
}

} // verus!
