//! Rust syntax, read and written by `syn` and `quote`.
//!
//! The rewriter works on source text. Whatever needs the grammar of Rust is
//! asked of the two crates here, one function for each question; the answers
//! are text again. Nothing in this module is proved: each contract gives the
//! answer a name and leaves what the answer is to the crate that computes it.

use vstd::prelude::*;

verus! {

/// The error that `syn` reports where it cannot parse.
#[verifier::external_type_specification]
#[verifier::external_body]
pub struct ExSynError(syn::Error);

/// The text that a string literal stands for, as `syn::LitStr::value` gives
/// it with the escapes resolved, where `source` is one string literal and
/// nothing else; `None` for any other source, the empty one included.
pub uninterp spec fn literal_value(source: Seq<char>) -> Option<Seq<char>>;

/// The body of a function, printed as `quote` prints the block that
/// `syn::parse_str` finds in `item` read as a `syn::ItemFn`; `None` where
/// `item` is not one function with a body.
pub uninterp spec fn function_body(item: Seq<char>) -> Option<Seq<char>>;

/// The function `item` with `body` in place of its own block, printed as
/// `quote` prints a `syn::ItemFn`; `None` where `item` does not parse as a
/// function or `body` does not parse as a `syn::Block`.
pub uninterp spec fn function_with_body(item: Seq<char>, body: Seq<char>) -> Option<Seq<char>>;

/// The string literal that `quote` writes for a text: the text between
/// double quotes, escaped so that a Rust parser reads the same text back.
pub uninterp spec fn str_literal(value: Seq<char>) -> Seq<char>;

/// Parses `source` as a `syn::LitStr` with `syn::parse_str` and takes its
/// value with `syn::LitStr::value`. The contract names the outcome
/// `literal_value`; the error is the one `syn` made.
#[verifier::external_body]
pub(crate) fn parse_string_literal(source: &str) -> (parsed: Result<String, syn::Error>)
    ensures
        parsed is Ok <==> literal_value(source@) is Some,
        parsed matches Ok(value) ==> literal_value(source@) == Some(value@),
{
    match syn::parse_str::<syn::LitStr>(source) {
        Ok(literal) => Ok(literal.value()),
        Err(error) => Err(error),
    }
}

/// Parses `item` as a `syn::ItemFn` with `syn::parse_str` and prints its
/// block with `quote::ToTokens::to_token_stream`. The contract names the
/// outcome `function_body`; the error is the one `syn` made.
#[verifier::external_body]
pub(crate) fn parse_function_body(item: &str) -> (parsed: Result<String, syn::Error>)
    ensures
        parsed is Ok <==> function_body(item@) is Some,
        parsed matches Ok(body) ==> function_body(item@) == Some(body@),
{
    match syn::parse_str::<syn::ItemFn>(item) {
        Ok(function) => Ok(quote::ToTokens::to_token_stream(&function.block).to_string()),
        Err(error) => Err(error),
    }
}

/// Parses `item` as a `syn::ItemFn` and `body` as a `syn::Block`, both with
/// `syn::parse_str`, makes the block the function's body and prints the
/// function with `quote::ToTokens::to_token_stream`. The contract names the
/// outcome `function_with_body`; the error is the one `syn` made for the part
/// that did not parse.
#[verifier::external_body]
pub(crate) fn replace_function_body(item: &str, body: &str) -> (replaced: Result<
    String,
    syn::Error,
>)
    ensures
        replaced is Ok <==> function_with_body(item@, body@) is Some,
        replaced matches Ok(text) ==> function_with_body(item@, body@) == Some(text@),
{
    let mut function = syn::parse_str::<syn::ItemFn>(item)?;
    let block = syn::parse_str::<syn::Block>(body)?;
    function.block = Box::new(block);
    Ok(quote::ToTokens::to_token_stream(&function).to_string())
}

/// Writes `value` as a string literal: `quote::ToTokens::to_token_stream` on
/// the text, printed. The contract names the result `str_literal`.
#[verifier::external_body]
pub(crate) fn string_literal(value: &str) -> (literal: String)
    ensures
        literal@ == str_literal(value@),
{
    quote::ToTokens::to_token_stream(value).to_string()
}

/// The message of an error of `syn`, as its `Display` writes it. Nothing is
/// claimed of the text.
#[verifier::external_body]
pub(crate) fn error_message(error: &syn::Error) -> (message: String) {
    error.to_string()
}

} // verus!
