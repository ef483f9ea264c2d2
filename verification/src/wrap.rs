//! The wrapping rule: a bracket token puts the path inside its bracket pair,
//! any other token is written on both sides of the path.

use vstd::prelude::*;
use vstd::string::StringExecFns;

verus! {

/// The bracket pair that `c` belongs to, as (opening, closing), for either
/// member of the four pairs `()`, `<>`, `{}` and `[]`.
pub open spec fn pair_of(c: char) -> Option<(char, char)> {
    if c == '(' || c == ')' {
        Some(('(', ')'))
    } else if c == '<' || c == '>' {
        Some(('<', '>'))
    } else if c == '{' || c == '}' {
        Some(('{', '}'))
    } else if c == '[' || c == ']' {
        Some(('[', ']'))
    } else {
        None
    }
}

/// The bracket pair that the token `w` selects. Only a token that is exactly
/// one bracket character selects a pair: a longer token that starts with a
/// bracket selects none.
pub open spec fn bracket_pair(w: Seq<char>) -> Option<(char, char)> {
    if w.len() == 1 {
        pair_of(w[0])
    } else {
        None
    }
}

/// The path `path` wrapped with the token `w`: inside the bracket pair that
/// `w` selects, or else between two copies of `w`.
pub open spec fn wrapped(path: Seq<char>, w: Seq<char>) -> Seq<char> {
    match bracket_pair(w) {
        Some((open, close)) => seq![open] + path + seq![close],
        None => w + path + w,
    }
}

/// Looks a single character up in the table of bracket pairs.
pub fn lookup_pair(c: char) -> (ret: Option<(char, char)>)
    ensures
        ret == pair_of(c),
{
    if c == '(' || c == ')' {
        Some(('(', ')'))
    } else if c == '<' || c == '>' {
        Some(('<', '>'))
    } else if c == '{' || c == '}' {
        Some(('{', '}'))
    } else if c == '[' || c == ']' {
        Some(('[', ']'))
    } else {
        None
    }
}

/// Finds the bracket pair that the token `paren` selects, if it selects one.
pub fn select_pair(paren: &str) -> (ret: Option<(char, char)>)
    ensures
        ret == bracket_pair(paren@),
{
    broadcast use vstd::string::group_string_axioms;

    let mut chars = paren.chars();
    let first = chars.next();
    let second = chars.next();
    match (first, second) {
        (Some(c), None) => lookup_pair(c),
        _ => None,
    }
}

/// Wraps `path` with the token `paren`.
pub fn wrap(path: &str, paren: &str) -> (ret: String)
    ensures
        ret@ == wrapped(path@, paren@),
{
    let mut ret = String::new();
    match select_pair(paren) {
        Some((open, close)) => {
            ret.push(open);
            ret.append(path);
            ret.push(close);
        },
        None => {
            ret.append(paren);
            ret.append(path);
            ret.append(paren);
        },
    }
    ret
}

} // verus!
