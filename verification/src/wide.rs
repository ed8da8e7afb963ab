//! Strings in the form the Windows shell takes them: UTF-16 code units closed
//! by a zero unit.

use vstd::prelude::*;

verus! {

/// The UTF-16 code units of one character: the character itself where it lies
/// in the basic plane, else a high and a low surrogate.
pub open spec fn utf16_units(c: char) -> Seq<u16> {
    let code = c as u32 as int;
    if code < 0x1_0000 {
        seq![code as u16]
    } else {
        seq![
            (0xD800 + (code - 0x1_0000) / 0x400) as u16,
            (0xDC00 + (code - 0x1_0000) % 0x400) as u16,
        ]
    }
}

/// The UTF-16 encoding of a text: the units of its characters, in order.
pub open spec fn utf16(s: Seq<char>) -> Seq<u16>
    decreases s.len(),
{
    if s.len() == 0 {
        Seq::empty()
    } else {
        utf16(s.drop_last()) + utf16_units(s.last())
    }
}

/// A text as a zero-terminated wide string.
pub open spec fn wide_chars(s: Seq<char>) -> Seq<u16> {
    utf16(s).push(0u16)
}

/// The encoding of a text grows by the units of the character appended to it.
proof fn lemma_utf16_take(s: Seq<char>, i: int)
    requires
        0 <= i < s.len(),
    ensures
        utf16(s.take(i + 1)) == utf16(s.take(i)) + utf16_units(s[i]),
{
    assert(s.take(i + 1).drop_last() =~= s.take(i));
}

/// Encodes `s` as a zero-terminated wide string.
pub fn to_wide_chars(s: &str) -> (wide: Vec<u16>)
    ensures
        wide@ == wide_chars(s@),
{
    let mut wide: Vec<u16> = Vec::new();
    for c in it: s.chars()
        invariant
            it.seq() == s@,
            wide@ == utf16(s@.take(it.index())),
    {
        proof {
            lemma_utf16_take(s@, it.index());
        }
        let code: u32 = c as u32;
        if code < 0x1_0000 {
            wide.push(code as u16);
        } else {
            let offset: u32 = code - 0x1_0000;
            wide.push((0xD800 + offset / 0x400) as u16);
            wide.push((0xDC00 + offset % 0x400) as u16);
        }
    }
    assert(s@.take(s@.len() as int) =~= s@);
    wide.push(0u16);
    wide
}

/// The encoding of two joined texts is the two encodings joined.
pub proof fn lemma_utf16_of_joined(a: Seq<char>, b: Seq<char>)
    ensures
        utf16(a + b) == utf16(a) + utf16(b),
    decreases b.len(),
{
    if b.len() == 0 {
        assert(a + b =~= a);
        assert(utf16(a) + utf16(b) =~= utf16(a));
    } else {
        lemma_utf16_of_joined(a, b.drop_last());
        assert((a + b).drop_last() =~= a + b.drop_last());
        assert((a + b).last() == b.last());
        assert(utf16(a) + utf16(b.drop_last()) + utf16_units(b.last()) =~= utf16(a) + (utf16(
            b.drop_last(),
        ) + utf16_units(b.last())));
    }
}

/// How the units of one character look: one unit that is no surrogate, or
/// a high surrogate followed by a low one, from which the character is
/// known.
proof fn lemma_utf16_units_shape(c: char)
    ensures
        utf16_units(c).len() == 1 ==> !(0xD800 <= utf16_units(c)[0] <= 0xDFFF) && c as u32
            == utf16_units(c)[0],
        utf16_units(c).len() != 1 ==> utf16_units(c).len() == 2 && 0xD800 <= utf16_units(c)[0]
            <= 0xDBFF && 0xDC00 <= utf16_units(c)[1] <= 0xDFFF && c as u32 == 0x1_0000 + (
        utf16_units(c)[0] - 0xD800) * 0x400 + (utf16_units(c)[1] - 0xDC00),
{
}

/// Two characters with the same code are the same character.
proof fn lemma_char_of_code(x: char, y: char)
    requires
        x as u32 == y as u32,
    ensures
        x == y,
{
}

/// Nothing is lost in the encoding: two texts with the same code units are
/// the same text.
pub proof fn lemma_utf16_is_one_to_one(a: Seq<char>, b: Seq<char>)
    requires
        utf16(a) == utf16(b),
    ensures
        a == b,
    decreases a.len(),
{
    if a.len() == 0 || b.len() == 0 {
        if a.len() > 0 {
            lemma_utf16_units_shape(a.last());
        }
        if b.len() > 0 {
            lemma_utf16_units_shape(b.last());
        }
        assert(a =~= b);
    } else {
        let x = a.last();
        let y = b.last();
        let units = utf16(a);
        lemma_utf16_units_shape(x);
        lemma_utf16_units_shape(y);
        let last = units[units.len() - 1];
        assert(last == utf16_units(x)[utf16_units(x).len() - 1]);
        assert(last == utf16_units(y)[utf16_units(y).len() - 1]);
        assert(utf16_units(x).len() == utf16_units(y).len());
        if utf16_units(x).len() == 2 {
            let first = units[units.len() - 2];
            assert(first == utf16_units(x)[0]);
            assert(first == utf16_units(y)[0]);
        }
        lemma_char_of_code(x, y);
        let n = utf16_units(x).len();
        assert(utf16(a.drop_last()) =~= units.take(units.len() - n));
        assert(utf16(b.drop_last()) =~= units.take(units.len() - n));
        lemma_utf16_is_one_to_one(a.drop_last(), b.drop_last());
        assert(a =~= a.drop_last().push(x));
        assert(b =~= b.drop_last().push(y));
    }
}

/// A wide string stands for one text only.
pub proof fn lemma_wide_chars_is_one_to_one(a: Seq<char>, b: Seq<char>)
    requires
        wide_chars(a) == wide_chars(b),
    ensures
        a == b,
{
    assert(utf16(a) =~= wide_chars(a).drop_last());
    assert(utf16(b) =~= wide_chars(b).drop_last());
    lemma_utf16_is_one_to_one(a, b);
}

/// A code unit below the surrogates is the code of the character it
/// stands for.
proof fn lemma_utf16_low_unit_is_char(c: char)
    ensures
        forall|j: int|
            0 <= j < utf16_units(c).len() && utf16_units(c)[j] < 0xD800 ==> utf16_units(c)[j]
                == c as u32,
{
}

/// Every code unit below the surrogates in the encoding of a text is the
/// code of a character of the text.
pub proof fn lemma_utf16_units_come_from_chars(s: Seq<char>)
    ensures
        forall|j: int|
            0 <= j < utf16(s).len() && utf16(s)[j] < 0xD800 ==> exists|i: int|
                0 <= i < s.len() && s[i] as u32 == #[trigger] utf16(s)[j],
    decreases s.len(),
{
    if s.len() > 0 {
        let before = s.drop_last();
        lemma_utf16_units_come_from_chars(before);
        lemma_utf16_low_unit_is_char(s.last());
        let head = utf16(before);
        let tail = utf16_units(s.last());
        assert forall|j: int| 0 <= j < utf16(s).len() && utf16(s)[j] < 0xD800 implies exists|
            i: int,
        |
            0 <= i < s.len() && s[i] as u32 == #[trigger] utf16(s)[j] by {
            if j < head.len() {
                assert(utf16(s)[j] == head[j]);
                let i = choose|i: int| 0 <= i < before.len() && before[i] as u32 == head[j];
                assert(s[i] == before[i]);
            } else {
                assert(utf16(s)[j] == tail[j - head.len()]);
                assert(s[s.len() - 1] as u32 == utf16(s)[j]);
            }
        }
    }
}

/// A wide string ends with a zero, and for a text without a NUL character
/// that is its only zero: whoever reads up to the first zero reads the
/// whole text.
pub proof fn lemma_wide_chars_end_at_first_zero(s: Seq<char>)
    requires
        forall|i: int| 0 <= i < s.len() ==> s[i] != '\0',
    ensures
        wide_chars(s).last() == 0,
        forall|j: int| 0 <= j < wide_chars(s).len() - 1 ==> wide_chars(s)[j] != 0,
{
    lemma_utf16_units_come_from_chars(s);
    assert forall|j: int| 0 <= j < utf16(s).len() implies utf16(s)[j] != 0 by {
        if utf16(s)[j] == 0 {
            let i = choose|i: int| 0 <= i < s.len() && s[i] as u32 == utf16(s)[j];
            lemma_zero_is_nul(s[i]);
        }
    }
}

/// The character of code zero is NUL.
proof fn lemma_zero_is_nul(c: char)
    requires
        c as u32 == 0,
    ensures
        c == '\0',
{
}

} // verus!
