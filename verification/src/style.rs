//! The scoped style text: a style sheet under one rule that selects the
//! element with a given identifier.

use vstd::prelude::*;

verus! {

/// The style text for an identifier and a style sheet: `#`, the identifier,
/// ` { `, the style sheet exactly as it was read, ` }`.
pub open spec fn style_text_of(identifier: Seq<char>, css: Seq<char>) -> Seq<char> {
    seq!['#'] + identifier + seq![' ', '{', ' '] + css + seq![' ', '}']
}

/// Puts a style sheet under the rule for an identifier. The style sheet is
/// not read as CSS: whatever it holds, braces and broken rules included,
/// stands unchanged between the rule's braces.
pub fn scoped_style_text(identifier: &str, css: &str) -> (text: String)
    ensures
        text@ == style_text_of(identifier@, css@),
{
    proof {
        reveal_strlit("#");
        reveal_strlit(" { ");
        reveal_strlit(" }");
    }
    let mut text = "#".to_owned();
    assert(text@ == seq!['#']);
    text.append(identifier);
    text.append(" { ");
    assert(" { "@ == seq![' ', '{', ' ']);
    text.append(css);
    text.append(" }");
    assert(" }"@ == seq![' ', '}']);
    text
}

/// The style text is as long as its parts and holds the identifier and the
/// style sheet, each in one piece, at fixed places.
pub proof fn style_text_layout(identifier: Seq<char>, css: Seq<char>)
    ensures
        style_text_of(identifier, css).len() == identifier.len() + css.len() + 6,
        style_text_of(identifier, css)[0] == '#',
        style_text_of(identifier, css).subrange(1, 1 + identifier.len() as int) == identifier,
        style_text_of(identifier, css).subrange(
            4 + identifier.len() as int,
            4 + identifier.len() as int + css.len() as int,
        ) == css,
{
}

} // verus!
