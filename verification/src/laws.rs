//! What holds of naming and renaming, for every name.

use vstd::prelude::*;
use crate::name::{
    first_token_len, is_full_name, joined, lemma_first_token_ends_at_separator,
    lemma_tokens_nonempty, lemma_tokens_of_joined, tokens, SEPARATOR,
};
use crate::super_villain::Names;

verus! {

/// A villain made from the full name of two separator-free names bears
/// exactly these two names, and gives that full name back. Where neither
/// name is empty, the villain is well-formed.
pub proof fn law_full_name_round_trip(given: Seq<char>, family: Seq<char>)
    requires
        !given.contains(SEPARATOR),
        !family.contains(SEPARATOR),
    ensures
        is_full_name(joined(given, family)),
        Names::parse(joined(given, family)) == (Names { given, family }),
        Names::parse(joined(given, family)).full_name() == joined(given, family),
        given.len() > 0 && family.len() > 0 ==> Names::parse(joined(given, family)).well_formed(),
{
    lemma_tokens_of_joined(given, family);
}

/// Renaming overwrites: whatever a villain was called before, after taking
/// the full name of two separator-free names it bears exactly these two, and
/// gives that full name back.
pub proof fn law_rename_overwrites(before: Names, given: Seq<char>, family: Seq<char>)
    requires
        !given.contains(SEPARATOR),
        !family.contains(SEPARATOR),
    ensures
        is_full_name(joined(given, family)),
        before.renamed(joined(given, family)) == (Names { given, family }),
        before.renamed(joined(given, family)).full_name() == joined(given, family),
{
    lemma_tokens_of_joined(given, family);
}

/// Only a text that holds a separator is a full name. The empty text and a
/// single word are none: nobody is made from them or renamed to them.
pub proof fn law_full_name_holds_separator(text: Seq<char>)
    ensures
        is_full_name(text) <==> text.contains(SEPARATOR),
{
    lemma_first_token_ends_at_separator(text);
    let n = first_token_len(text);
    if n < text.len() {
        lemma_tokens_nonempty(text.skip((n + 1) as int));
        assert(text[n as int] == SEPARATOR);
    } else {
        assert(tokens(text).len() == 1);
    }
}

} // verus!
