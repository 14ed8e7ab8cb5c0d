//! Escaping of plain text for Telegram's MarkdownV2 message style.
use vstd::prelude::*;

verus! {

/// The characters that MarkdownV2 reserves and that must be escaped with a
/// backslash to be shown as they are.
pub open spec fn is_markdown_special(c: char) -> bool {
    c == '_' || c == '*' || c == '[' || c == ']' || c == '(' || c == ')' || c == '~' || c == '`'
        || c == '>' || c == '#' || c == '+' || c == '-' || c == '=' || c == '|' || c == '{'
        || c == '}' || c == '.' || c == '!'
}

/// One character as it appears in escaped text.
pub open spec fn escaped_char(c: char) -> Seq<char> {
    if is_markdown_special(c) {
        seq!['\\', c]
    } else {
        seq![c]
    }
}

/// Text with every reserved character preceded by a backslash and every other
/// character left as it is.
pub open spec fn escaped(s: Seq<char>) -> Seq<char>
    decreases s.len(),
{
    if s.len() == 0 {
        Seq::empty()
    } else {
        escaped_char(s[0]) + escaped(s.drop_first())
    }
}

/// `teloxide::utils::markdown::escape`: it replaces each reserved character
/// by a backslash followed by that character, one reserved character after
/// the other, so the result is every character of the input with the
/// reserved ones prefixed by a backslash.
#[verifier::external_body]
pub(crate) fn escape(s: &str) -> (res: String)
    ensures
        res@ == escaped(s@),
{
    teloxide::utils::markdown::escape(s)
}

/// Escaping works character by character: the escape of a text is the
/// escapes of its parts, one after the other.
pub proof fn law_escaped_concat(a: Seq<char>, b: Seq<char>)
    ensures
        escaped(a + b) == escaped(a) + escaped(b),
    decreases a.len(),
{
    if a.len() == 0 {
        assert(a + b =~= b);
        assert(escaped(a) =~= Seq::<char>::empty());
    } else {
        law_escaped_concat(a.drop_first(), b);
        assert((a + b).drop_first() =~= a.drop_first() + b);
        assert((a + b)[0] == a[0]);
        assert(escaped(a + b) =~= escaped_char(a[0]) + (escaped(a.drop_first()) + escaped(b)));
    }
}

/// A single reserved character gets a backslash in front of it; any other
/// character, the backslash included, is kept as it is.
pub proof fn law_escaped_single(c: char)
    ensures
        is_markdown_special(c) ==> escaped(seq![c]) == seq!['\\', c],
        !is_markdown_special(c) ==> escaped(seq![c]) == seq![c],
        !is_markdown_special('\\'),
        is_markdown_special('_') && is_markdown_special('*') && is_markdown_special('[')
            && is_markdown_special(']') && is_markdown_special('(') && is_markdown_special(')')
            && is_markdown_special('~') && is_markdown_special('`') && is_markdown_special('>')
            && is_markdown_special('#') && is_markdown_special('+') && is_markdown_special('-')
            && is_markdown_special('=') && is_markdown_special('|') && is_markdown_special('{')
            && is_markdown_special('}') && is_markdown_special('.') && is_markdown_special('!'),
{
    assert(seq![c].drop_first() =~= Seq::<char>::empty());
    assert(escaped(seq![c]) =~= escaped_char(c) + escaped(Seq::<char>::empty()));
}

} // verus!
