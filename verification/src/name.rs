//! The grammar of a full name: tokens separated by single spaces.

use vstd::prelude::*;

verus! {

/// The character that stands between the tokens of a full name.
pub const SEPARATOR: char = ' ';

/// The number of characters of `text` that stand before its first separator:
/// the whole length where it holds none.
pub open spec fn first_token_len(text: Seq<char>) -> nat
    decreases text.len(),
{
    if text.len() == 0 || text[0] == SEPARATOR {
        0
    } else {
        1 + first_token_len(text.drop_first())
    }
}

/// The tokens of `text`: the runs of characters between its separators, in
/// order, empty runs included. A text with `k` separators has `k + 1` tokens.
pub open spec fn tokens(text: Seq<char>) -> Seq<Seq<char>>
    decreases text.len(),
{
    let n = first_token_len(text);
    if n >= text.len() {
        seq![text]
    } else {
        seq![text.take(n as int)] + tokens(text.skip((n + 1) as int))
    }
}

/// A full name has a given name and a family name: at least two tokens.
pub open spec fn is_full_name(text: Seq<char>) -> bool {
    tokens(text).len() >= 2
}

/// The full name made of two names: one separator between them.
pub open spec fn joined(given: Seq<char>, family: Seq<char>) -> Seq<char> {
    given + seq![SEPARATOR] + family
}

/// A separator-free run of `run` characters that ends the text, or is
/// followed by a separator, is the first token.
pub proof fn lemma_first_token_len(text: Seq<char>, run: int)
    requires
        0 <= run <= text.len(),
        forall|k: int| 0 <= k < run ==> text[k] != SEPARATOR,
        run == text.len() || text[run] == SEPARATOR,
    ensures
        first_token_len(text) == run,
    decreases run,
{
    if run > 0 {
        lemma_first_token_len(text.drop_first(), run - 1);
    }
}

/// The first token is a separator-free prefix of the text, and what follows
/// it, if anything does, is a separator.
pub proof fn lemma_first_token_ends_at_separator(text: Seq<char>)
    ensures
        first_token_len(text) <= text.len(),
        forall|k: int| 0 <= k < first_token_len(text) ==> text[k] != SEPARATOR,
        first_token_len(text) < text.len() ==> text[first_token_len(text) as int] == SEPARATOR,
    decreases text.len(),
{
    if text.len() > 0 && text[0] != SEPARATOR {
        let tail = text.drop_first();
        lemma_first_token_ends_at_separator(tail);
        assert forall|k: int| 0 <= k < first_token_len(text) implies text[k] != SEPARATOR by {
            if k > 0 {
                assert(text[k] == tail[k - 1]);
            }
        }
        assert(first_token_len(tail) < tail.len() ==> text[first_token_len(text) as int]
            == tail[first_token_len(tail) as int]);
    }
}

/// Every text has a first token.
pub proof fn lemma_tokens_nonempty(text: Seq<char>)
    ensures
        tokens(text).len() >= 1,
        tokens(text)[0] == text.take(first_token_len(text) as int),
{
    lemma_first_token_ends_at_separator(text);
    if first_token_len(text) >= text.len() {
        assert(text.take(text.len() as int) == text);
    }
}

/// Two separator-free names, joined, split into those two names again.
pub proof fn lemma_tokens_of_joined(given: Seq<char>, family: Seq<char>)
    requires
        !given.contains(SEPARATOR),
        !family.contains(SEPARATOR),
    ensures
        tokens(joined(given, family)) == seq![given, family],
{
    let text = joined(given, family);
    assert(first_token_len(text) == given.len()) by {
        lemma_first_token_len(text, given.len() as int);
    }
    assert(text.take(given.len() as int) == given);
    assert(text.skip((given.len() + 1) as int) == family);
    assert(tokens(family) == seq![family]) by {
        lemma_first_token_len(family, family.len() as int);
    }
    assert(tokens(text) == seq![given] + tokens(family));
}

/// Splits `text` at every separator, as `tokens` does.
pub fn split(text: &str) -> (parts: Vec<&str>)
    ensures
        parts.deep_view() == tokens(text@),
{
    let n = text.unicode_len();
    let mut parts: Vec<&str> = Vec::new();
    let mut start: usize = 0;
    let mut i: usize = 0;
    proof {
        assert(text@.skip(0) == text@);
        assert(parts.deep_view() == Seq::<Seq<char>>::empty());
    }
    for c in it: text.chars()
        invariant
            n == text@.len(),
            it.seq() == text@,
            i == it.index(),
            start <= i <= n,
            forall|k: int| start <= k < i ==> text@[k] != SEPARATOR,
            tokens(text@) == parts.deep_view() + tokens(text@.skip(start as int)),
    {
        if c == SEPARATOR {
            proof {
                let rest = text@.skip(start as int);
                lemma_first_token_len(rest, i - start);
                assert(rest.take(i - start) == text@.subrange(start as int, i as int));
                assert(rest.skip(i - start + 1) == text@.skip(i + 1));
            }
            parts.push(text.substring_char(start, i));
            start = i + 1;
        }
        i += 1;
    }
    proof {
        let rest = text@.skip(start as int);
        lemma_first_token_len(rest, n - start);
        assert(rest == text@.subrange(start as int, n as int));
    }
    parts.push(text.substring_char(start, n));
    parts
}

} // verus!
