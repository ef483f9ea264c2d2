//! Backslash escaping: every backslash of a text is written twice.

use vstd::prelude::*;

verus! {

/// The character that escaping doubles.
pub const BACKSLASH: char = '\\';

/// What one character of the input becomes: two backslashes for a backslash,
/// the character itself otherwise.
pub open spec fn escaped_char(c: char) -> Seq<char> {
    if c == BACKSLASH {
        seq![BACKSLASH, BACKSLASH]
    } else {
        seq![c]
    }
}

/// The text `s` with every backslash replaced by two backslashes and every
/// other character kept, in order.
pub open spec fn escaped(s: Seq<char>) -> Seq<char> {
    s.flat_map(|c: char| escaped_char(c))
}

/// The number of consecutive backslashes that `s` ends with.
pub open spec fn trailing_backslashes(s: Seq<char>) -> nat
    decreases s.len(),
{
    if s.len() > 0 && s.last() == BACKSLASH {
        1 + trailing_backslashes(s.drop_last())
    } else {
        0
    }
}

/// No backslash of `s` stands alone: every maximal run of backslashes has an
/// even length, so the backslashes of `s` fall into adjacent pairs. A run is
/// measured where it ends, which is before a character that is no backslash or
/// at the end of `s`.
pub open spec fn backslashes_paired(s: Seq<char>) -> bool {
    forall|i: int|
        0 <= i <= s.len() && (i == s.len() || s[i] != BACKSLASH)
            ==> #[trigger] trailing_backslashes(s.take(i)) % 2 == 0
}

/// Escaping a text that ends in `c` escapes what precedes `c` and then `c`.
pub proof fn lemma_escaped_push(s: Seq<char>, c: char)
    ensures
        escaped(s.push(c)) == escaped(s) + escaped_char(c),
{
    s.lemma_flat_map_push(|c: char| escaped_char(c), c);
}

/// Escaping two texts written one after the other escapes each of them.
pub proof fn lemma_escaped_concat(a: Seq<char>, b: Seq<char>)
    ensures
        escaped(a + b) == escaped(a) + escaped(b),
    decreases b.len(),
{
    if b.len() == 0 {
        assert(a + b == a);
        assert(escaped(b).len() == 0);
    } else {
        let init = b.drop_last();
        lemma_escaped_concat(a, init);
        lemma_escaped_push(a + init, b.last());
        lemma_escaped_push(init, b.last());
        assert(a + b == (a + init).push(b.last()));
        assert(b == init.push(b.last()));
    }
}

/// Escaping never shortens a text.
pub proof fn lemma_escaped_len(s: Seq<char>)
    ensures
        escaped(s).len() >= s.len(),
    decreases s.len(),
{
    if s.len() == 0 {
    } else {
        lemma_escaped_len(s.drop_last());
        lemma_escaped_push(s.drop_last(), s.last());
        assert(s == s.drop_last().push(s.last()));
    }
}

/// Escaping leaves no backslash alone, whatever the text held before.
pub proof fn lemma_escaped_backslashes_paired(s: Seq<char>)
    ensures
        backslashes_paired(escaped(s)),
    decreases s.len(),
{
    let e = escaped(s);
    if s.len() == 0 {
        assert(e.len() == 0);
        assert forall|i: int|
            0 <= i <= e.len() && (i == e.len() || e[i] != BACKSLASH)
            implies #[trigger] trailing_backslashes(e.take(i)) % 2 == 0 by {
            assert(e.take(i).len() == 0);
        }
    } else {
        let init = s.drop_last();
        let c = s.last();
        let e0 = escaped(init);
        lemma_escaped_backslashes_paired(init);
        lemma_escaped_push(init, c);
        assert(s == init.push(c));
        assert forall|i: int|
            0 <= i <= e.len() && (i == e.len() || e[i] != BACKSLASH)
            implies #[trigger] trailing_backslashes(e.take(i)) % 2 == 0 by {
            if i <= e0.len() {
                // The run ends inside what preceded `c`.
                assert(e.take(i) == e0.take(i));
            } else if c == BACKSLASH {
                // The run ends after the two backslashes written for `c`.
                assert(e.take(i) == e);
                assert(e.drop_last() == e0.push(BACKSLASH));
                assert(e.drop_last().drop_last() == e0);
                assert(e0.take(e0.len() as int) == e0);
                assert(trailing_backslashes(e.drop_last()) == 1 + trailing_backslashes(e0));
            } else {
                // The text ends in `c`, which is no backslash.
                assert(e.take(i) == e);
            }
        }
    }
}

/// Doubles every backslash of `s`.
pub fn escape_backslashes(s: &str) -> (ret: String)
    ensures
        ret@ == escaped(s@),
{
    broadcast use vstd::string::group_string_axioms;

    let mut ret = String::new();
    for c in it: s.chars()
        invariant
            it.seq() == s@,
            ret@ == escaped(s@.take(it.index())),
    {
        proof {
            s@.lemma_flat_map_take_append(|c: char| escaped_char(c), it.index());
        }
        if c == BACKSLASH {
            ret.push(BACKSLASH);
            ret.push(BACKSLASH);
        } else {
            ret.push(c);
        }
    }
    assert(s@.take(s@.len() as int) == s@);
    ret
}

} // verus!
