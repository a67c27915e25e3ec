//! Identifiers: a base name followed by the hash of that name, reduced to at
//! most four decimal digits.

use crate::decimal::{decimal, decimal_shape, decimal_string, is_digit};
use crate::hash::{djb2, hash_bytes};
use crate::stem::{path_base, path_base_name, path_stem};
use vstd::prelude::*;
use vstd::utf8::encode_utf8;

verus! {

/// The bound below which every numeric suffix lies.
pub const SUFFIX_RANGE: u32 = 10000;

/// The numeric suffix of a base name: the hash of its UTF-8 bytes, reduced
/// modulo ten thousand.
pub open spec fn suffix_of(name: Seq<char>) -> nat {
    djb2(encode_utf8(name)) % (SUFFIX_RANGE as nat)
}

/// The identifier of a base name: the name, then its suffix in decimal
/// notation without padding.
pub open spec fn identifier_of(name: Seq<char>) -> Seq<char> {
    name + decimal(suffix_of(name))
}

/// The identifier derived from the path of a style sheet.
pub open spec fn derived_identifier(path: Seq<char>) -> Seq<char> {
    identifier_of(path_base_name(path))
}

/// Computes the numeric suffix of a base name.
pub fn suffix(name: &str) -> (n: u32)
    ensures
        n == suffix_of(name@),
        n < 10000,
{
    hash_bytes(name.as_bytes()) % SUFFIX_RANGE
}

/// Builds the identifier of a base name. The name is taken as it is: nothing
/// in it is replaced or escaped.
pub fn identifier(name: &str) -> (id: String)
    ensures
        id@ == identifier_of(name@),
{
    let digits = decimal_string(suffix(name));
    let mut id = name.to_owned();
    id.append(digits.as_str());
    id
}

/// Derives the identifier for the style sheet at `path`. Only the stem of the
/// file name counts: style sheets of one name in different directories share
/// their identifier, and so do `card.css` and `card.scss`.
pub fn derive_identifier(path: &str) -> (id: String)
    ensures
        id@ == derived_identifier(path@),
{
    let name = path_base(path);
    identifier(name.as_str())
}

/// An identifier depends on the base name alone: equal names give equal
/// identifiers, however often and wherever they are derived.
pub proof fn identifier_is_deterministic(a: Seq<char>, b: Seq<char>)
    requires
        a == b,
    ensures
        identifier_of(a) == identifier_of(b),
        suffix_of(a) == suffix_of(b),
{
}

/// Two paths whose file names have the same stem get the same identifier,
/// whatever directories they lie in.
pub proof fn same_stem_same_identifier(p: Seq<char>, q: Seq<char>)
    requires
        path_stem(p) == path_stem(q),
    ensures
        derived_identifier(p) == derived_identifier(q),
{
}

/// An identifier is its base name, unchanged, followed by one to four decimal
/// digits.
pub proof fn identifier_shape(name: Seq<char>)
    ensures
        suffix_of(name) < 10000,
        name.len() + 1 <= identifier_of(name).len() <= name.len() + 4,
        identifier_of(name).subrange(0, name.len() as int) == name,
        identifier_of(name).subrange(name.len() as int, identifier_of(name).len() as int)
            == decimal(suffix_of(name)),
        forall|i: int|
            name.len() <= i < identifier_of(name).len() ==> is_digit(
                #[trigger] identifier_of(name)[i],
            ),
{
    let digits = decimal(suffix_of(name));
    decimal_shape(suffix_of(name));
    assert forall|i: int| name.len() <= i < identifier_of(name).len() implies is_digit(
        #[trigger] identifier_of(name)[i],
    ) by {
        assert(identifier_of(name)[i] == digits[i - name.len()]);
    }
}

/// Whether a character may stand in the `id` of an element and in a
/// selector for it without escaping: an ASCII letter or digit, `-` or `_`.
pub open spec fn is_plain(c: char) -> bool {
    ||| 'a' <= c <= 'z'
    ||| 'A' <= c <= 'Z'
    ||| '0' <= c <= '9'
    ||| c == '-'
    ||| c == '_'
}

/// The identifier of a base name made of plain characters is made of plain
/// characters. A name with others in it keeps them: nothing is cleaned.
pub proof fn plain_name_plain_identifier(name: Seq<char>)
    requires
        forall|i: int| 0 <= i < name.len() ==> is_plain(#[trigger] name[i]),
    ensures
        forall|i: int|
            0 <= i < identifier_of(name).len() ==> is_plain(#[trigger] identifier_of(name)[i]),
{
    identifier_shape(name);
    assert forall|i: int| 0 <= i < identifier_of(name).len() implies is_plain(
        #[trigger] identifier_of(name)[i],
    ) by {
        if i < name.len() {
            assert(identifier_of(name)[i] == name[i]);
        } else {
            assert(is_digit(identifier_of(name)[i]));
        }
    }
}

} // verus!
