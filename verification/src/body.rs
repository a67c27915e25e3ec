//! The rewritten body of a component.
//!
//! The body that replaces a component's own evaluates the original body,
//! keeps its result and renders two elements in this order: a `<style>`
//! element with the scoped style text, and a container `<div>` whose `id` is
//! the identifier and whose only child is the result that was kept.

use crate::style::{scoped_style_text, style_text_of};
use crate::syntax::{str_literal, string_literal};
use vstd::prelude::*;

verus! {

/// The `<style>` element: it renders its text and nothing else.
#[derive(Debug, Clone, PartialEq, Eq)]
pub struct StyleElement {
    /// The text between the tags.
    pub text: String,
}

/// The container element. Its content is the result of the original body.
#[derive(Debug, Clone, PartialEq, Eq)]
pub struct Container {
    /// The value of the element's `id` attribute.
    pub id: String,
}

/// A rewritten body: the original body, which is evaluated first, and the
/// two elements that are rendered around its result, the style element
/// before the container.
#[derive(Debug, Clone, PartialEq, Eq)]
pub struct RewrittenBody {
    /// The source of the original body, taken over as it is.
    pub original: String,
    /// The first element rendered.
    pub style: StyleElement,
    /// The second element rendered; it holds the original body's result.
    pub container: Container,
}

/// What a rewritten body is made of.
pub ghost struct BodyModel {
    pub original: Seq<char>,
    pub style_text: Seq<char>,
    pub container_id: Seq<char>,
}

impl View for RewrittenBody {
    type V = BodyModel;

    open spec fn view(&self) -> BodyModel {
        BodyModel {
            original: self.original@,
            style_text: self.style.text@,
            container_id: self.container.id@,
        }
    }
}

/// The source up to the original body: the block opens and the result of
/// the original body gets its name.
pub open spec fn opening() -> Seq<char> {
    "{ let original_view = "@
}

/// The source between the original body and the style text: the statement
/// ends, the view opens, and with it the style element.
pub open spec fn before_style() -> Seq<char> {
    "; leptos::view! { <style>{"@
}

/// The source between the style text and the identifier: the style element
/// closes and the container opens.
pub open spec fn before_id() -> Seq<char> {
    "}</style> <div id="@
}

/// The source after the identifier: the container holds the result of the
/// original body and closes, then the view and the block.
pub open spec fn closing() -> Seq<char> {
    ">{original_view}</div> } }"@
}

/// The source of a rewritten body, given the source of the original body and
/// the two string literals that stand in it.
pub open spec fn body_source_of(
    original: Seq<char>,
    style_literal: Seq<char>,
    id_literal: Seq<char>,
) -> Seq<char> {
    opening() + original + before_style() + style_literal + before_id() + id_literal + closing()
}

/// The source of the body that a model describes.
pub open spec fn model_source(model: BodyModel) -> Seq<char> {
    body_source_of(
        model.original,
        str_literal(model.style_text),
        str_literal(model.container_id),
    )
}

/// What a rewritten body renders, given what the original body renders: the
/// style element with its text, then the container with its `id` around the
/// original content. Nothing is added between the elements and nothing is
/// escaped.
pub open spec fn markup_of(model: BodyModel, content: Seq<char>) -> Seq<char> {
    "<style>"@ + model.style_text + "</style><div id=\""@ + model.container_id + "\">"@ + content
        + "</div>"@
}

/// Writes the source of a rewritten body around the source of the original
/// body. The two literals are placed as they are given.
pub fn body_source(original: &str, style_literal: &str, id_literal: &str) -> (source: String)
    ensures
        source@ == body_source_of(original@, style_literal@, id_literal@),
{
    let mut source = "{ let original_view = ".to_owned();
    source.append(original);
    source.append("; leptos::view! { <style>{");
    source.append(style_literal);
    source.append("}</style> <div id=");
    source.append(id_literal);
    source.append(">{original_view}</div> } }");
    source
}

impl RewrittenBody {
    /// Wraps the original body: a style element with the style sheet under
    /// the rule for `identifier`, then a container with that identifier.
    pub fn new(original: &str, identifier: &str, css: &str) -> (body: RewrittenBody)
        ensures
            body@ == (BodyModel {
                original: original@,
                style_text: style_text_of(identifier@, css@),
                container_id: identifier@,
            }),
    {
        RewrittenBody {
            original: original.to_owned(),
            style: StyleElement { text: scoped_style_text(identifier, css) },
            container: Container { id: identifier.to_owned() },
        }
    }

    /// Writes what the body renders around `content`, the markup that the
    /// original body rendered.
    pub fn render(&self, content: &str) -> (markup: String)
        ensures
            markup@ == markup_of(self@, content@),
    {
        let mut markup = "<style>".to_owned();
        markup.append(self.style.text.as_str());
        markup.append("</style><div id=\"");
        markup.append(self.container.id.as_str());
        markup.append("\">");
        markup.append(content);
        markup.append("</div>");
        markup
    }

    /// Writes the body as source: the style text and the identifier stand in
    /// it as string literals.
    pub fn to_source(&self) -> (source: String)
        ensures
            source@ == model_source(self@),
    {
        let style_literal = string_literal(self.style.text.as_str());
        let id_literal = string_literal(self.container.id.as_str());
        body_source(self.original.as_str(), style_literal.as_str(), id_literal.as_str())
    }
}

/// In the source of a rewritten body the original body comes first, then the
/// style element, then the container: each part stands whole at the place
/// that the lengths of the parts before it give.
pub proof fn body_source_order(original: Seq<char>, style_literal: Seq<char>, id_literal: Seq<char>)
    ensures
        ({
            let source = body_source_of(original, style_literal, id_literal);
            let at_original = opening().len() as int;
            let at_style = at_original + original.len() + before_style().len();
            let at_id = at_style + style_literal.len() + before_id().len();
            &&& source.len() == at_id + id_literal.len() + closing().len()
            &&& source.subrange(0, at_original) == opening()
            &&& source.subrange(at_original, at_original + original.len()) == original
            &&& source.subrange(at_style - before_style().len(), at_style) == before_style()
            &&& source.subrange(at_style, at_style + style_literal.len()) == style_literal
            &&& source.subrange(at_id - before_id().len(), at_id) == before_id()
            &&& source.subrange(at_id, at_id + id_literal.len()) == id_literal
            &&& source.subrange(at_id + id_literal.len(), source.len() as int) == closing()
        }),
{
}

} // verus!
