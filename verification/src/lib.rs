//! Scoped CSS for UI components.
//!
//! A component is given a style sheet by rewriting its definition: the body is
//! evaluated as before, and its result is rendered inside a container element
//! whose `id` is derived from the style sheet's file name, next to a `<style>`
//! element that holds the style sheet under one rule for that `id`.
//!
//! The library works on text: the argument and the definition come as Rust
//! source, the style sheet as the text that was read from its file, and the
//! rewritten definition is returned as Rust source. Reading the file is left
//! to the caller, who learns the path from [`style_path`].

pub mod body;
pub mod decimal;
pub mod error;
pub mod hash;
pub mod ident;
pub mod stem;
pub mod style;
pub mod syntax;

use crate::body::{model_source, BodyModel, RewrittenBody};
use crate::error::StylesError;
use crate::ident::{derive_identifier, derived_identifier};
use crate::style::style_text_of;
use crate::syntax::{
    error_message, function_body, function_with_body, literal_value, parse_function_body,
    parse_string_literal, replace_function_body,
};
use vstd::prelude::*;

verus! {

/// The source of the body that replaces `original` for the style sheet `css`
/// at `path`.
pub open spec fn rewritten_body(path: Seq<char>, original: Seq<char>, css: Seq<char>) -> Seq<
    char,
> {
    model_source(
        BodyModel {
            original,
            style_text: style_text_of(derived_identifier(path), css),
            container_id: derived_identifier(path),
        },
    )
}

/// Reads the path of the style sheet from the argument, which must be one
/// string literal. A missing argument, or one of another shape, is an
/// `Argument` error.
pub fn style_path(attr: &str) -> (path: Result<String, StylesError>)
    ensures
        match literal_value(attr@) {
            Some(value) => path matches Ok(p) && p@ == value,
            None => path matches Err(StylesError::Argument(_)),
        },
{
    match parse_string_literal(attr) {
        Ok(path) => Ok(path),
        Err(error) => Err(StylesError::Argument(error_message(&error))),
    }
}

/// Puts `body` in the place of the body of the function `item` and returns
/// the definition that results. It is a `Synthesis` error where `body` does
/// not parse as a block, and also where `item` does not parse as a function;
/// nothing is returned of the definition then.
pub fn replace_body(item: &str, body: &str) -> (replaced: Result<String, StylesError>)
    ensures
        match function_with_body(item@, body@) {
            Some(text) => replaced matches Ok(out) && out@ == text,
            None => replaced matches Err(StylesError::Synthesis(_)),
        },
{
    match replace_function_body(item, body) {
        Ok(text) => Ok(text),
        Err(error) => Err(StylesError::Synthesis(error_message(&error))),
    }
}

/// Rewrites the component `item` for the style sheet at `path`, whose text
/// is `css`; `None` says that the style sheet could not be read.
///
/// Only the body changes: name, parameters, return type and attributes stay
/// as `item` has them. An `item` that is not a function is a `Definition`
/// error, a style sheet that could not be read a `Resolution` error that
/// holds `path`, and a new body that does not parse a `Synthesis` error.
pub fn rewrite(path: &str, item: &str, css: Option<&str>) -> (rewritten: Result<
    String,
    StylesError,
>)
    ensures
        match function_body(item@) {
            None => rewritten matches Err(StylesError::Definition(_)),
            Some(original) => match css {
                None => rewritten matches Err(StylesError::Resolution(p)) && p@ == path@,
                Some(sheet) => match function_with_body(
                    item@,
                    rewritten_body(path@, original, sheet@),
                ) {
                    None => rewritten matches Err(StylesError::Synthesis(_)),
                    Some(text) => rewritten matches Ok(out) && out@ == text,
                },
            },
        },
{
    let original = match parse_function_body(item) {
        Ok(original) => original,
        Err(error) => {
            return Err(StylesError::Definition(error_message(&error)));
        },
    };
    let sheet = match css {
        Some(sheet) => sheet,
        None => {
            return Err(StylesError::Resolution(path.to_owned()));
        },
    };
    let identifier = derive_identifier(path);
    let body = RewrittenBody::new(original.as_str(), identifier.as_str(), sheet);
    let source = body.to_source();
    replace_body(item, source.as_str())
}

/// Applies the style sheet named by `attr` to the component `item`.
///
/// `attr` is the argument, one string literal that holds the path of the
/// style sheet; `css` is the text of that style sheet, or `None` where it
/// could not be read. The result is the definition with its body rewritten,
/// or the first failure in this order: the argument, the definition, the
/// style sheet, the new body. The argument is judged before anything else,
/// so a caller can ask [`style_path`] first and read the file only then.
pub fn styles(attr: &str, item: &str, css: Option<&str>) -> (rewritten: Result<
    String,
    StylesError,
>)
    ensures
        match literal_value(attr@) {
            None => rewritten matches Err(StylesError::Argument(_)),
            Some(path) => match function_body(item@) {
                None => rewritten matches Err(StylesError::Definition(_)),
                Some(original) => match css {
                    None => rewritten matches Err(StylesError::Resolution(p)) && p@ == path,
                    Some(sheet) => match function_with_body(
                        item@,
                        rewritten_body(path, original, sheet@),
                    ) {
                        None => rewritten matches Err(StylesError::Synthesis(_)),
                        Some(text) => rewritten matches Ok(out) && out@ == text,
                    },
                },
            },
        },
{
    match style_path(attr) {
        Ok(path) => rewrite(path.as_str(), item, css),
        Err(error) => Err(error),
    }
}

} // verus!
