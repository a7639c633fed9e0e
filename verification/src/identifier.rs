//! Post identifiers: which of them are accepted, and where the body of the
//! post that one names is kept.
//!
//! An identifier is the name of a body file, as it arrives from a URL. The
//! body of `hello.md` is kept at `<root>/hello/hello.md`: the directory is
//! named by the identifier's stem, the characters before its first `.`.
//! An identifier that is empty, holds a path separator or holds `..` is
//! refused before any path is made of it.

use crate::error::ContentError;
use crate::text::chars_of;
use vstd::prelude::*;

verus! {

/// Whether `c` separates the steps of a path.
pub open spec fn is_separator(c: char) -> bool {
    c == '/' || c == '\\'
}

/// Whether `s` holds a path separator.
pub open spec fn has_separator(s: Seq<char>) -> bool {
    exists|i: int| 0 <= i < s.len() && is_separator(#[trigger] s[i])
}

/// Whether `s` holds two dots in a row.
pub open spec fn has_parent_step(s: Seq<char>) -> bool {
    exists|i: int| 0 <= i && i + 1 < s.len() && #[trigger] s[i] == '.' && s[i + 1] == '.'
}

/// Whether `id` is accepted as a post identifier.
pub open spec fn valid_identifier(id: Seq<char>) -> bool {
    &&& id.len() > 0
    &&& !has_separator(id)
    &&& !has_parent_step(id)
}

/// The place of the first `.` in `id`, or the length of `id` where it
/// holds none.
pub open spec fn first_dot(id: Seq<char>) -> int
    decreases id.len(),
{
    if id.len() == 0 || id[0] == '.' {
        0
    } else {
        1 + first_dot(id.drop_first())
    }
}

/// The stem of `id`: its characters before the first `.`.
pub open spec fn stem_of(id: Seq<char>) -> Seq<char> {
    id.take(first_dot(id))
}

/// The path of the body of the post `id` under `root`.
pub open spec fn body_path(root: Seq<char>, id: Seq<char>) -> Seq<char> {
    root + seq!['/'] + stem_of(id) + seq!['/'] + id
}

/// `first_dot` is the least place of a `.`.
pub proof fn lemma_first_dot(id: Seq<char>)
    ensures
        0 <= first_dot(id) <= id.len(),
        forall|j: int| 0 <= j < first_dot(id) ==> id[j] != '.',
        first_dot(id) < id.len() ==> id[first_dot(id)] == '.',
    decreases id.len(),
{
    if id.len() == 0 || id[0] == '.' {
    } else {
        let rest = id.drop_first();
        lemma_first_dot(rest);
        assert forall|j: int| 0 <= j < first_dot(id) implies id[j] != '.' by {
            if j > 0 {
                assert(id[j] == rest[j - 1]);
            }
        }
        assert(first_dot(id) < id.len() ==> id[first_dot(id)] == rest[first_dot(rest)]);
    }
}

/// A place with no `.` before it, which holds a `.` or is the end, is
/// `first_dot`.
pub proof fn lemma_first_dot_is(id: Seq<char>, k: int)
    requires
        0 <= k <= id.len(),
        forall|j: int| 0 <= j < k ==> id[j] != '.',
        k < id.len() ==> id[k] == '.',
    ensures
        first_dot(id) == k,
{
    lemma_first_dot(id);
    if first_dot(id) < k {
        assert(id[first_dot(id)] == '.');
    } else if k < first_dot(id) {
        assert(id[k] == '.');
    }
}

/// Whether `id` is accepted as a post identifier: `Ok` exactly where it is,
/// and `InvalidIdentifier` for every other.
pub fn check_identifier(id: &str) -> (checked: Result<(), ContentError>)
    ensures
        checked is Ok <==> valid_identifier(id@),
        checked matches Err(e) ==> e == ContentError::InvalidIdentifier,
{
    let chars = chars_of(id);
    if chars.len() == 0 {
        return Err(ContentError::InvalidIdentifier);
    }
    let mut i: usize = 0;
    while i < chars.len()
        invariant
            chars@ == id@,
            i <= chars.len(),
            forall|j: int| 0 <= j < i ==> !is_separator(#[trigger] id@[j]),
            forall|j: int| 0 <= j < i && j + 1 < chars.len() ==> !(#[trigger] id@[j] == '.' && id@[j + 1] == '.'),
        decreases chars.len() - i,
    {
        let c = chars[i];
        if c == '/' || c == '\\' {
            assert(is_separator(id@[i as int]));
            return Err(ContentError::InvalidIdentifier);
        }
        if c == '.' && i + 1 < chars.len() && chars[i + 1] == '.' {
            assert(id@[i as int] == '.' && id@[i + 1] == '.');
            return Err(ContentError::InvalidIdentifier);
        }
        i += 1;
    }
    Ok(())
}

/// The stem of `id`: its characters before the first `.`, all of it where
/// it holds none.
pub fn post_stem(id: &str) -> (stem: String)
    ensures
        stem@ == stem_of(id@),
{
    let chars = chars_of(id);
    let mut k: usize = 0;
    while k < chars.len() && chars[k] != '.'
        invariant
            chars@ == id@,
            k <= chars.len(),
            forall|j: int| 0 <= j < k ==> id@[j] != '.',
        decreases chars.len() - k,
    {
        k += 1;
    }
    proof {
        lemma_first_dot_is(id@, k as int);
    }
    String::from_str(id.substring_char(0, k))
}

/// The path of the body of the post `id` under `root`: `Ok` exactly where
/// `id` is accepted, and `InvalidIdentifier` for every other.
pub fn post_path(root: &str, id: &str) -> (path: Result<String, ContentError>)
    ensures
        match path {
            Ok(p) => valid_identifier(id@) && p@ == body_path(root@, id@),
            Err(e) => !valid_identifier(id@) && e == ContentError::InvalidIdentifier,
        },
{
    match check_identifier(id) {
        Ok(()) => {
            let stem = post_stem(id);
            let mut path = String::from_str(root);
            path.append("/");
            path.append(stem.as_str());
            path.append("/");
            path.append(id);
            proof {
                reveal_strlit("/");
                assert("/"@ =~= seq!['/']);
            }
            Ok(path)
        },
        Err(e) => Err(e),
    }
}

} // verus!
