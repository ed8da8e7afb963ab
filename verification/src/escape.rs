//! Neutralising the characters of a URI that could end a line, an argument
//! or the text itself, before the URI is handed to the shell.
//!
//! Every ASCII control character (U+0000 to U+001F, and U+007F) is replaced
//! by its percent-encoding: a line feed by `%0A`, a carriage return by
//! `%0D`, a tab by `%09`, a NUL by `%00`. None of them can stand in a URI as
//! it is, so a handler that decodes percent-encodings loses nothing.
//!
//! Every other character is passed on unchanged. That holds for printable
//! characters that no URI may hold raw either, the space and the double
//! quote among them: whether to take such a URI is left to the handler.

use vstd::prelude::*;

verus! {

/// `String::push` appends the given character to the end of the string.
pub assume_specification[ String::push ](s: &mut String, c: char)
    ensures
        final(s)@ == old(s)@.push(c),
;

/// Whether a character is an ASCII control character: one of U+0000 to
/// U+001F, or U+007F.
pub open spec fn is_ascii_control(c: char) -> bool {
    c as u32 <= 0x1F || c as u32 == 0x7F
}

/// The sixteen hexadecimal digits, in order, letters in upper case.
pub open spec fn hex_digits() -> Seq<char> {
    seq!['0', '1', '2', '3', '4', '5', '6', '7', '8', '9', 'A', 'B', 'C', 'D', 'E', 'F']
}

/// The percent-encoding of a character below U+0100: a percent sign and the
/// two hexadecimal digits of its code.
pub open spec fn percent_encoded(c: char) -> Seq<char> {
    let code = c as u32 as int;
    seq!['%', hex_digits()[code / 16], hex_digits()[code % 16]]
}

/// What stands for one character in an escaped URI: its percent-encoding
/// for an ASCII control character, the character itself otherwise.
pub open spec fn escaped_char(c: char) -> Seq<char> {
    if is_ascii_control(c) {
        percent_encoded(c)
    } else {
        seq![c]
    }
}

/// A URI with every ASCII control character replaced by its
/// percent-encoding.
pub open spec fn escaped(uri: Seq<char>) -> Seq<char>
    decreases uri.len(),
{
    if uri.len() == 0 {
        Seq::empty()
    } else {
        escaped(uri.drop_last()) + escaped_char(uri.last())
    }
}

/// Escaping a text that grew by one character appends what stands for that
/// character.
proof fn lemma_escaped_take(uri: Seq<char>, i: int)
    requires
        0 <= i < uri.len(),
    ensures
        escaped(uri.take(i + 1)) == escaped(uri.take(i)) + escaped_char(uri[i]),
{
    assert(uri.take(i + 1).drop_last() =~= uri.take(i));
}

/// The hexadecimal digit of a value below sixteen.
fn hex_digit(value: u32) -> (digit: char)
    requires
        value < 16,
    ensures
        digit == hex_digits()[value as int],
{
    match value {
        0 => '0',
        1 => '1',
        2 => '2',
        3 => '3',
        4 => '4',
        5 => '5',
        6 => '6',
        7 => '7',
        8 => '8',
        9 => '9',
        10 => 'A',
        11 => 'B',
        12 => 'C',
        13 => 'D',
        14 => 'E',
        _ => 'F',
    }
}

/// Replaces every ASCII control character in `uri` by its percent-encoding,
/// so that the URI stays one line and one argument wherever it is placed.
pub fn escape_controls(uri: &str) -> (out: String)
    ensures
        out@ == escaped(uri@),
{
    let mut out = String::new();
    for c in it: uri.chars()
        invariant
            it.seq() == uri@,
            out@ == escaped(uri@.take(it.index())),
    {
        proof {
            lemma_escaped_take(uri@, it.index());
        }
        let code: u32 = c as u32;
        if code <= 0x1F || code == 0x7F {
            out.push('%');
            out.push(hex_digit(code / 16));
            out.push(hex_digit(code % 16));
        } else {
            out.push(c);
        }
    }
    assert(uri@.take(uri@.len() as int) =~= uri@);
    out
}

/// What stands for a character holds no ASCII control character.
proof fn lemma_escaped_char_has_no_control(c: char)
    ensures
        forall|i: int| 0 <= i < escaped_char(c).len() ==> !is_ascii_control(escaped_char(c)[i]),
{
}

/// No ASCII control character is left in an escaped URI: no line feed, no
/// carriage return, no tab, no NUL.
pub proof fn lemma_escaped_has_no_control(uri: Seq<char>)
    ensures
        forall|i: int| 0 <= i < escaped(uri).len() ==> !is_ascii_control(escaped(uri)[i]),
    decreases uri.len(),
{
    if uri.len() > 0 {
        lemma_escaped_has_no_control(uri.drop_last());
        lemma_escaped_char_has_no_control(uri.last());
        let head = escaped(uri.drop_last());
        let tail = escaped_char(uri.last());
        assert forall|i: int| 0 <= i < escaped(uri).len() implies !is_ascii_control(
            escaped(uri)[i],
        ) by {
            if i < head.len() {
                assert(escaped(uri)[i] == head[i]);
            } else {
                assert(escaped(uri)[i] == tail[i - head.len()]);
            }
        }
    }
}

/// A URI without an ASCII control character is passed on as it is.
pub proof fn lemma_escaped_without_control(uri: Seq<char>)
    requires
        forall|i: int| 0 <= i < uri.len() ==> !is_ascii_control(uri[i]),
    ensures
        escaped(uri) == uri,
    decreases uri.len(),
{
    if uri.len() > 0 {
        lemma_escaped_without_control(uri.drop_last());
        assert(uri.drop_last().push(uri.last()) =~= uri);
    }
}

} // verus!
