//! How text falls into tokens, and the plain form in which a query reaches
//! the engine.

use vstd::prelude::*;

verus! {

/// The character is one of the 52 ASCII letters.
pub open spec fn is_ascii_letter(c: char) -> bool {
    ('a' <= c && c <= 'z') || ('A' <= c && c <= 'Z')
}

/// The lower-case form of an ASCII letter; any other character as it is.
pub open spec fn lowered(c: char) -> char {
    if 'A' <= c && c <= 'Z' {
        ((c as u32) + 32) as char
    } else {
        c
    }
}

/// The tokens of a text, in order: its maximal runs of ASCII letters, in
/// lower case. Every other character only separates tokens.
pub open spec fn tokens(text: Seq<char>) -> Seq<Seq<char>>
    decreases text.len(),
{
    if text.len() == 0 {
        Seq::empty()
    } else {
        let front = text.drop_last();
        let last = text.last();
        if !is_ascii_letter(last) {
            tokens(front)
        } else if front.len() > 0 && is_ascii_letter(front.last()) {
            let before = tokens(front);
            before.drop_last().push(before.last().push(lowered(last)))
        } else {
            tokens(front).push(seq![lowered(last)])
        }
    }
}

/// An ASCII letter as it is; a space in place of any other character.
pub open spec fn plain_char(c: char) -> char {
    if is_ascii_letter(c) {
        c
    } else {
        ' '
    }
}

/// The plain form of a query: character by character, with a space in place
/// of everything that is no ASCII letter.
pub open spec fn plain_query(query: Seq<char>) -> Seq<char> {
    query.map_values(|c: char| plain_char(c))
}

/// The plain form of a query has the tokens of the query itself.
pub proof fn lemma_plain_query_keeps_tokens(query: Seq<char>)
    ensures
        tokens(plain_query(query)) == tokens(query),
    decreases query.len(),
{
    if query.len() > 0 {
        let front = query.drop_last();
        lemma_plain_query_keeps_tokens(front);
        assert(plain_query(query).drop_last() =~= plain_query(front));
        assert(plain_query(query).last() == plain_char(query.last()));
        if front.len() > 0 {
            assert(plain_query(front).last() == plain_char(front.last()));
        }
    }
}

/// Calls `String::push`, which appends the character to the string.
#[verifier::external_body]
fn push_char(text: &mut String, c: char)
    ensures
        final(text)@ == old(text)@.push(c),
{
    text.push(c)
}

/// Puts a query into its plain form.
pub fn plain_text(query: &str) -> (plain: String)
    ensures
        plain@ == plain_query(query@),
{
    let mut plain = String::new();
    for c in it: query.chars()
        invariant
            it.seq() == query@,
            plain@ == plain_query(query@.take(it.index() as int)),
    {
        let letter = (c >= 'a' && c <= 'z') || (c >= 'A' && c <= 'Z');
        proof {
            assert(query@.take(it.index() + 1) =~= query@.take(it.index() as int).push(c));
            assert(plain_query(query@.take(it.index() + 1)) =~= plain_query(
                query@.take(it.index() as int),
            ).push(plain_char(c)));
        }
        if letter {
            push_char(&mut plain, c);
        } else {
            push_char(&mut plain, ' ');
        }
    }
    proof {
        assert(query@.take(query@.len() as int) =~= query@);
    }
    plain
}

} // verus!
