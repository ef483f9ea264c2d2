//! Decoration: wrapping, then escaping where it is asked for.

use vstd::prelude::*;

use crate::escape::{escape_backslashes, escaped};
use crate::wrap::{wrap, wrapped};

verus! {

/// The decorated form of `path`: wrapped with the token `w`, and after that,
/// if `escape` is set, with every backslash of the wrapped text doubled, those
/// of the token included.
pub open spec fn decorated(path: Seq<char>, w: Seq<char>, escape: bool) -> Seq<char> {
    if escape {
        escaped(wrapped(path, w))
    } else {
        wrapped(path, w)
    }
}

/// Decorates `path` with the token `paren`, doubling backslashes when
/// `is_escape` is set. Every input has a result.
pub fn get_path_str(path: &str, paren: &str, is_escape: bool) -> (ret: String)
    ensures
        ret@ == decorated(path@, paren@, is_escape),
{
    let wrapped = wrap(path, paren);
    if is_escape {
        escape_backslashes(wrapped.as_str())
    } else {
        wrapped
    }
}

} // verus!
