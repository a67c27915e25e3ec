//! The base name of a style sheet: its file name without the extension.

use vstd::prelude::*;

verus! {

/// What `std::path::Path::file_name` finds in a path, as text: the last
/// component of the path where that is a name, and `None` where the path is
/// empty, is a root or ends in `..`. The path is read by the rules of the
/// platform that the library is built for.
pub uninterp spec fn path_file_name(path: Seq<char>) -> Option<Seq<char>>;

/// Calls `std::path::Path::file_name` on `path` and hands the name back as
/// text. The contract gives the outcome its name, `path_file_name`, and says
/// nothing of what the file name of a given path is.
#[verifier::external_body]
pub(crate) fn file_name(path: &str) -> (name: Option<String>)
    ensures
        name is Some <==> path_file_name(path@) is Some,
        name matches Some(text) ==> path_file_name(path@) == Some(text@),
{
    match std::path::Path::new(path).file_name() {
        Some(name) => match name.to_str() {
            Some(text) => Some(text.to_owned()),
            None => None,
        },
        None => None,
    }
}

/// The place of the last dot in a file name, or -1 where the name has none.
pub open spec fn last_dot(name: Seq<char>) -> int
    decreases name.len(),
{
    if name.len() == 0 {
        -1
    } else if name.last() == '.' {
        name.len() - 1
    } else {
        last_dot(name.drop_last())
    }
}

/// The stem of a file name: the name up to its last dot, or all of it where
/// it has no dot. What follows the last dot is the extension.
pub open spec fn stem_of(name: Seq<char>) -> Seq<char> {
    if last_dot(name) < 0 {
        name
    } else {
        name.take(last_dot(name))
    }
}

/// The base name used where a path has no stem.
pub open spec fn fallback() -> Seq<char> {
    "component"@
}

/// The base name that a file name gives: its stem, or `component` where
/// there is no file name or nothing stands before the extension.
pub open spec fn base_name_of(name: Option<Seq<char>>) -> Seq<char> {
    match name {
        Some(n) => if stem_of(n).len() > 0 {
            stem_of(n)
        } else {
            fallback()
        },
        None => fallback(),
    }
}

/// The stem that the path of a style sheet holds, if it holds one.
pub open spec fn path_stem(path: Seq<char>) -> Option<Seq<char>> {
    match path_file_name(path) {
        Some(n) => if stem_of(n).len() > 0 {
            Some(stem_of(n))
        } else {
            None
        },
        None => None,
    }
}

/// The base name of the style sheet at `path`.
pub open spec fn path_base_name(path: Seq<char>) -> Seq<char> {
    base_name_of(path_file_name(path))
}

/// The last dot of a name is a dot, no dot follows it, and a name without
/// dots has none.
pub proof fn last_dot_is_last(name: Seq<char>)
    ensures
        -1 <= last_dot(name) < name.len(),
        last_dot(name) >= 0 ==> name[last_dot(name)] == '.',
        forall|i: int| last_dot(name) < i < name.len() ==> name[i] != '.',
    decreases name.len(),
{
    if name.len() > 0 && name.last() != '.' {
        let front = name.drop_last();
        last_dot_is_last(front);
        assert forall|i: int| last_dot(name) < i < name.len() implies name[i] != '.' by {
            if i < front.len() {
                assert(name[i] == front[i]);
            }
        }
    }
}

/// Takes the extension off a file name.
pub fn stem(name: &str) -> (stem: String)
    ensures
        stem@ == stem_of(name@),
{
    let length = name.unicode_len();
    let mut end: usize = length;
    while end > 0 && name.get_char(end - 1) != '.'
        invariant
            end <= length,
            length == name@.len(),
            forall|i: int| end <= i < length ==> name@[i] != '.',
        decreases end,
    {
        end -= 1;
    }
    proof {
        last_dot_is_last(name@);
        if end > 0 {
            assert(last_dot(name@) == end - 1);
        } else {
            assert(last_dot(name@) == -1);
        }
    }
    if end == 0 {
        name.to_owned()
    } else {
        name.substring_char(0, end - 1).to_owned()
    }
}

/// Chooses the base name for a file name that was looked for: its stem, or
/// `component` where no name was found or its stem is empty.
pub fn base_name(name: Option<String>) -> (base: String)
    ensures
        base@ == base_name_of(
            match name {
                Some(n) => Some(n@),
                None => None,
            },
        ),
{
    match name {
        Some(n) => {
            let found = stem(n.as_str());
            if found.as_str().unicode_len() > 0 {
                found
            } else {
                "component".to_owned()
            }
        },
        None => "component".to_owned(),
    }
}

/// Finds the base name of the style sheet at `path`: the stem of its file
/// name, or `component` where the path holds none.
pub fn path_base(path: &str) -> (base: String)
    ensures
        base@ == path_base_name(path@),
        base@ == match path_stem(path@) {
            Some(found) => found,
            None => fallback(),
        },
{
    base_name(file_name(path))
}

} // verus!
