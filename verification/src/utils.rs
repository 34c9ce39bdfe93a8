//! Quoting of label text as a DOT string literal.
//!
//! Only the double quote is escaped. Backslashes, line breaks and all other characters pass
//! through as they are, so a text that ends in a backslash yields a literal whose closing
//! quote a reader takes for an escaped one.

use vstd::prelude::*;

verus! {

/// What one character of a text becomes inside a DOT string literal: a double quote gets a
/// backslash in front of it, every other character stands for itself.
pub open spec fn escaped_char(c: char) -> Seq<char> {
    if c == '"' {
        seq!['\\', '"']
    } else {
        seq![c]
    }
}

/// The characters of `text` as they stand between the delimiters of a DOT string literal.
pub open spec fn escaped(text: Seq<char>) -> Seq<char> {
    text.map_values(|c: char| escaped_char(c)).flatten()
}

/// The DOT string literal for `text`: the escaped characters between two double quotes.
pub open spec fn quoted(text: Seq<char>) -> Seq<char> {
    seq!['"'] + escaped(text) + seq!['"']
}

/// What a reader of DOT makes of the characters between the delimiters of a string literal:
/// a backslash with a double quote behind it stands for the double quote, every other
/// character for itself.
pub open spec fn unescaped(body: Seq<char>) -> Seq<char>
    decreases body.len(),
{
    if body.len() == 0 {
        Seq::empty()
    } else if body.len() >= 2 && body[0] == '\\' && body[1] == '"' {
        seq!['"'] + unescaped(body.skip(2))
    } else {
        seq![body[0]] + unescaped(body.skip(1))
    }
}

/// Taken on trust from the standard library's documentation, not proved here: `String::push`
/// appends the given character to the end of the string and leaves what was there as it is.
pub assume_specification[ String::push ](s: &mut String, ch: char)
    ensures
        final(s)@ == old(s)@.push(ch),
;

/// Turns `s` into a double-quoted DOT string literal.
pub fn quote_string(s: &str) -> (literal: String)
    ensures
        literal@ == quoted(s@),
{
    let mut literal = String::new();
    literal.push('"');
    for c in it: s.chars()
        invariant
            it.seq() == s@,
            literal@ == seq!['"'] + escaped(s@.take(it.index())),
    {
        proof {
            lemma_escaped_push(s@.take(it.index()), c);
            assert(s@.take(it.index() + 1) =~= s@.take(it.index()).push(c));
        }
        if c == '"' {
            literal.push('\\');
        }
        literal.push(c);
    }
    assert(s@.take(s@.len() as int) =~= s@);
    literal.push('"');
    literal
}

/// Escaping one more character appends that character's escape.
pub proof fn lemma_escaped_push(text: Seq<char>, c: char)
    ensures
        escaped(text.push(c)) == escaped(text) + escaped_char(c),
{
    let each = |c: char| escaped_char(c);
    assert(text.push(c).map_values(each) =~= text.map_values(each).push(escaped_char(c)));
    text.map_values(each).lemma_flatten_push(escaped_char(c));
}

/// Escaping works piece by piece: the escape of two texts joined is the two escapes joined.
pub proof fn lemma_escaped_concat(before: Seq<char>, after: Seq<char>)
    ensures
        escaped(before + after) == escaped(before) + escaped(after),
{
    let each = |c: char| escaped_char(c);
    assert((before + after).map_values(each) =~= before.map_values(each) + after.map_values(each));
    vstd::seq_lib::lemma_flatten_concat(before.map_values(each), after.map_values(each));
}

/// A text without a double quote is its own escape.
pub proof fn lemma_escaped_without_quote(text: Seq<char>)
    requires
        !text.contains('"'),
    ensures
        escaped(text) == text,
    decreases text.len(),
{
    if text.len() > 0 {
        let front = text.drop_last();
        assert(text =~= front.push(text.last()));
        lemma_escaped_without_quote(front);
        lemma_escaped_push(front, text.last());
    }
}

/// A double quote in a text becomes a backslash and the double quote, and the text on either
/// side of it is escaped by itself.
pub proof fn lemma_escaped_embedded_quote(before: Seq<char>, after: Seq<char>)
    ensures
        escaped(before + seq!['"'] + after) == escaped(before) + seq!['\\', '"'] + escaped(after),
{
    lemma_escaped_concat(before + seq!['"'], after);
    lemma_escaped_push(before, '"');
    assert(before + seq!['"'] =~= before.push('"'));
}

/// A quoted literal begins and ends with a double quote, and every double quote between the
/// two has a backslash in front of it.
pub proof fn lemma_quoted_delimiters(text: Seq<char>)
    ensures
        quoted(text).len() >= 2,
        quoted(text).first() == '"',
        quoted(text).last() == '"',
        forall|i: int|
            0 < i < quoted(text).len() - 1 && #[trigger] quoted(text)[i] == '"' ==> 1 < i
                && quoted(text)[i - 1] == '\\',
{
    lemma_escaped_quotes(text);
}

/// In an escaped text every double quote has a backslash in front of it.
proof fn lemma_escaped_quotes(text: Seq<char>)
    ensures
        forall|i: int|
            0 <= i < escaped(text).len() && #[trigger] escaped(text)[i] == '"' ==> 0 < i
                && escaped(text)[i - 1] == '\\',
    decreases text.len(),
{
    if text.len() > 0 {
        let front = text.drop_last();
        assert(text =~= front.push(text.last()));
        lemma_escaped_quotes(front);
        lemma_escaped_push(front, text.last());
    }
}

/// The closing quote of a literal has no backslash in front of it, unless the text itself
/// ends in one.
pub proof fn lemma_quoted_closing_quote(text: Seq<char>)
    requires
        text.len() == 0 || text.last() != '\\',
    ensures
        quoted(text)[quoted(text).len() - 2] != '\\',
{
    if text.len() > 0 {
        let front = text.drop_last();
        assert(text =~= front.push(text.last()));
        lemma_escaped_push(front, text.last());
    }
}

/// Reading an escaped text gives the text back: no character but the double quote is changed,
/// and each double quote gets exactly one backslash.
pub proof fn lemma_unescaped_escaped(text: Seq<char>)
    ensures
        unescaped(escaped(text)) == text,
    decreases text.len(),
{
    if text.len() > 0 {
        let each = |c: char| escaped_char(c);
        let rest = text.drop_first();
        assert(text.map_values(each).drop_first() =~= rest.map_values(each));
        lemma_unescaped_escaped(rest);
        if text[0] == '"' {
            assert(escaped(text).skip(2) =~= escaped(rest));
        } else {
            assert(escaped(text).skip(1) =~= escaped(rest));
        }
    }
}

} // verus!
