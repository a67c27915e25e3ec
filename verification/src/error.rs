//! What can go wrong while a component is rewritten.

use vstd::prelude::*;

verus! {

/// Why a component was not rewritten. Every failure ends the rewriting of
/// that one component; none leaves a partly rewritten definition behind.
#[derive(Debug, Clone, PartialEq, Eq)]
pub enum StylesError {
    /// The path argument is missing or is not a string literal. Holds the
    /// parser's message.
    Argument(String),
    /// The annotated item is not a function with a body. Holds the parser's
    /// message.
    Definition(String),
    /// The style sheet could not be found or read. Holds the path as it was
    /// given.
    Resolution(String),
    /// The body that was put together does not parse. Holds the parser's
    /// message.
    Synthesis(String),
}

/// The words that open the message of a `Resolution` error.
pub open spec fn unreadable_prefix() -> Seq<char> {
    "could not read the style sheet at "@
}

impl StylesError {
    /// The text that the error holds: a parser's message, or the path of the
    /// style sheet.
    pub open spec fn detail(self) -> Seq<char> {
        match self {
            StylesError::Argument(text) => text@,
            StylesError::Definition(text) => text@,
            StylesError::Resolution(path) => path@,
            StylesError::Synthesis(text) => text@,
        }
    }

    /// The message to report: the parser's own for an error of syntax, and
    /// one that ends in the path for a style sheet that could not be read.
    pub open spec fn message_of(self) -> Seq<char> {
        match self {
            StylesError::Resolution(path) => unreadable_prefix() + path@,
            _ => self.detail(),
        }
    }

    /// Writes the message to report.
    pub fn message(&self) -> (text: String)
        ensures
            text@ == self.message_of(),
    {
        match self {
            StylesError::Argument(detail) => detail.clone(),
            StylesError::Definition(detail) => detail.clone(),
            StylesError::Resolution(path) => {
                let mut text = "could not read the style sheet at ".to_owned();
                text.append(path.as_str());
                text
            },
            StylesError::Synthesis(detail) => detail.clone(),
        }
    }
}

/// The message of a style sheet that could not be read names the path, whole
/// and at its end.
pub proof fn unreadable_message_names_path(path: String)
    ensures
        StylesError::Resolution(path).message_of().len() == unreadable_prefix().len()
            + path@.len(),
        StylesError::Resolution(path).message_of().subrange(
            unreadable_prefix().len() as int,
            StylesError::Resolution(path).message_of().len() as int,
        ) == path@,
{
}

} // verus!
