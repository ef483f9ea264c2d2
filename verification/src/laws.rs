//! Laws of decoration, each proved from the definitions for every input.

use vstd::prelude::*;

use crate::decorate::decorated;
use crate::escape::{
    backslashes_paired, escaped, lemma_escaped_backslashes_paired, lemma_escaped_concat,
    lemma_escaped_len, lemma_escaped_push,
};
use crate::wrap::{bracket_pair, wrapped};

verus! {

/// With an empty token and no escaping the path comes back unchanged.
pub proof fn lemma_empty_token_keeps_path(p: Seq<char>)
    ensures
        decorated(p, Seq::empty(), false) == p,
{
}

/// Either round bracket puts the path between `(` and `)`.
pub proof fn lemma_round_brackets(p: Seq<char>)
    ensures
        decorated(p, seq!['('], false) == seq!['('] + p + seq![')'],
        decorated(p, seq![')'], false) == seq!['('] + p + seq![')'],
{
}

/// Either angle bracket puts the path between `<` and `>`, either curly
/// bracket between `{` and `}`, and either square bracket between `[` and `]`.
pub proof fn lemma_other_bracket_pairs(p: Seq<char>)
    ensures
        decorated(p, seq!['<'], false) == seq!['<'] + p + seq!['>'],
        decorated(p, seq!['>'], false) == seq!['<'] + p + seq!['>'],
        decorated(p, seq!['{'], false) == seq!['{'] + p + seq!['}'],
        decorated(p, seq!['}'], false) == seq!['{'] + p + seq!['}'],
        decorated(p, seq!['['], false) == seq!['['] + p + seq![']'],
        decorated(p, seq![']'], false) == seq!['['] + p + seq![']'],
{
}

/// A token that is none of the eight bracket tokens stands unchanged on both
/// sides of the path.
pub proof fn lemma_plain_token_on_both_sides(p: Seq<char>, w: Seq<char>)
    requires
        w != seq!['('],
        w != seq![')'],
        w != seq!['<'],
        w != seq!['>'],
        w != seq!['{'],
        w != seq!['}'],
        w != seq!['['],
        w != seq![']'],
    ensures
        decorated(p, w, false) == w + p + w,
{
    if w.len() == 1 {
        assert(w == seq![w[0]]);
    }
}

/// With escaping the result holds no backslash that stands alone: its
/// backslashes come in adjacent pairs, whatever the path and the token hold.
pub proof fn lemma_escaped_result_backslashes_paired(p: Seq<char>, w: Seq<char>)
    ensures
        backslashes_paired(decorated(p, w, true)),
{
    lemma_escaped_backslashes_paired(wrapped(p, w));
}

/// Escaping works on the whole wrapped text, so the backslashes of the token
/// are doubled as those of the path are: the result is the escaped path
/// wrapped with the escaped token.
pub proof fn lemma_escaping_reaches_the_token(p: Seq<char>, w: Seq<char>)
    ensures
        decorated(p, w, true) == wrapped(escaped(p), escaped(w)),
{
    lemma_escaped_len(w);
    if w.len() == 1 {
        assert(w == Seq::<char>::empty().push(w[0]));
        lemma_escaped_push(Seq::empty(), w[0]);
        assert(escaped(Seq::<char>::empty()).len() == 0);
    }
    assert(bracket_pair(escaped(w)) == bracket_pair(w));
    match bracket_pair(w) {
        Some((open, close)) => {
            lemma_escaped_concat(seq![open] + p, seq![close]);
            lemma_escaped_concat(seq![open], p);
            lemma_escaped_push(Seq::empty(), open);
            lemma_escaped_push(Seq::empty(), close);
            assert(seq![open] == Seq::<char>::empty().push(open));
            assert(seq![close] == Seq::<char>::empty().push(close));
        },
        None => {
            lemma_escaped_concat(w + p, w);
            lemma_escaped_concat(w, p);
        },
    }
}

} // verus!
