//! Which entry paths may be written into an archive.

use vstd::prelude::*;
use crate::error::ArchiveError;

verus! {

/// `/` and `\` both separate path components.
pub open spec fn is_separator(c: char) -> bool {
    c == '/' || c == '\\'
}

pub open spec fn is_ascii_letter(c: char) -> bool {
    ('a' <= c && c <= 'z') || ('A' <= c && c <= 'Z')
}

/// The path starts at a root: a leading separator, or a drive prefix such as `C:`.
pub open spec fn is_absolute_path(p: Seq<char>) -> bool {
    ||| p.len() > 0 && is_separator(p[0])
    ||| p.len() >= 2 && is_ascii_letter(p[0]) && p[1] == ':'
}

/// A `..` component starts at index `i` of `p`.
pub open spec fn parent_component_at(p: Seq<char>, i: int) -> bool {
    &&& 0 <= i && i + 2 <= p.len()
    &&& p[i] == '.' && p[i + 1] == '.'
    &&& i == 0 || is_separator(p[i - 1])
    &&& i + 2 == p.len() || is_separator(p[i + 2])
}

/// Some component of the path is `..`.
pub open spec fn has_parent_component(p: Seq<char>) -> bool {
    exists|i: int| parent_component_at(p, i)
}

/// A path that stays inside the archive root when extracted.
pub open spec fn is_safe_path(p: Seq<char>) -> bool {
    !is_absolute_path(p) && !has_parent_component(p)
}

/// The path, as a vector of its characters.
fn path_chars(path: &str) -> (cs: Vec<char>)
    ensures
        cs@ == path@,
{
    let mut cs: Vec<char> = Vec::new();
    for c in it: path.chars()
        invariant
            it.seq() == path@,
            cs@ == it.seq().take(it.index() as int),
    {
        cs.push(c);
    }
    cs
}

fn separator(c: char) -> (b: bool)
    ensures
        b == is_separator(c),
{
    c == '/' || c == '\\'
}

/// Whether `path` is absolute or has a `..` component.
pub fn path_is_safe(path: &str) -> (b: bool)
    ensures
        b == is_safe_path(path@),
{
    let cs = path_chars(path);
    let n = cs.len();
    if n > 0 && separator(cs[0]) {
        return false;
    }
    if n >= 2 && (('a' <= cs[0] && cs[0] <= 'z') || ('A' <= cs[0] && cs[0] <= 'Z')) && cs[1] == ':' {
        return false;
    }
    let mut i: usize = 0;
    while n >= 2 && i <= n - 2
        invariant
            i <= n,
            cs@ == path@,
            n == cs@.len(),
            forall|j: int| 0 <= j < i ==> !parent_component_at(path@, j),
        decreases n - i,
    {
        if cs[i] == '.' && cs[i + 1] == '.' && (i == 0 || separator(cs[i - 1]))
            && (i + 2 == n || separator(cs[i + 2])) {
            assert(parent_component_at(path@, i as int));
            return false;
        }
        i = i + 1;
    }
    assert forall|j: int| !parent_component_at(path@, j) by {
        if 0 <= j && j < i {
        }
    }
    true
}

/// Checks an entry path (or symlink target) before it is written.
///
/// With `allow_unsafe_path_traversals` every path passes; otherwise an
/// absolute path or one with a `..` component is refused with
/// [`ArchiveError::UnsafePath`] carrying the path.
pub fn validate_path(path: &str, allow_unsafe_path_traversals: bool) -> (r: Result<(), ArchiveError>)
    ensures
        r is Ok <==> allow_unsafe_path_traversals || is_safe_path(path@),
        r matches Err(e) ==> e.is_refusal(crate::error::Refusal::UnsafePath(path@)),
{
    if allow_unsafe_path_traversals || path_is_safe(path) {
        Ok(())
    } else {
        Err(ArchiveError::UnsafePath(String::from_str(path)))
    }
}

} // verus!
