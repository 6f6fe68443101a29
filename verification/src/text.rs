//! Text helpers shared by the modules that read attribute files.

use vstd::prelude::*;
use vstd::slice::slice_subrange;
use vstd::string::{StrSliceExecFns, StringExecFns, StringSliceAdditionalSpecFns};
use vstd::utf8::{decode_utf8, encode_utf8_decode_utf8};

verus! {

/// Whether a character is whitespace: one of the code points that have the
/// Unicode property White_Space.
pub open spec fn is_white_space(c: char) -> bool {
    ||| '\u{9}' <= c <= '\u{d}'
    ||| c == ' '
    ||| c == '\u{85}'
    ||| c == '\u{a0}'
    ||| c == '\u{1680}'
    ||| '\u{2000}' <= c <= '\u{200a}'
    ||| c == '\u{2028}'
    ||| c == '\u{2029}'
    ||| c == '\u{202f}'
    ||| c == '\u{205f}'
    ||| c == '\u{3000}'
}

/// A text without the whitespace at its start.
pub open spec fn trimmed_start(text: Seq<char>) -> Seq<char>
    decreases text.len(),
{
    if text.len() > 0 && is_white_space(text.first()) {
        trimmed_start(text.drop_first())
    } else {
        text
    }
}

/// A text without the whitespace at its end.
pub open spec fn trimmed_end(text: Seq<char>) -> Seq<char>
    decreases text.len(),
{
    if text.len() > 0 && is_white_space(text.last()) {
        trimmed_end(text.drop_last())
    } else {
        text
    }
}

/// What is left of a text once the whitespace at both of its ends is
/// removed: the longest run of whitespace at its start, and the longest at
/// its end.
pub open spec fn trimmed(text: Seq<char>) -> Seq<char> {
    trimmed_end(trimmed_start(text))
}

/// A text that neither starts nor ends in whitespace is left as it is.
pub proof fn lemma_trimmed_plain(text: Seq<char>)
    requires
        text.len() > 0 ==> !is_white_space(text.first()) && !is_white_space(text.last()),
    ensures
        trimmed(text) == text,
{
}

/// Whitespace in front of a text changes nothing of what trimming leaves.
pub proof fn lemma_trimmed_behind_whitespace(c: char, text: Seq<char>)
    requires
        is_white_space(c),
    ensures
        trimmed(seq![c] + text) == trimmed(text),
{
    assert((seq![c] + text).drop_first() =~= text);
}

/// Whitespace behind a text changes nothing of what trimming leaves.
pub proof fn lemma_trimmed_before_whitespace(text: Seq<char>, c: char)
    requires
        is_white_space(c),
    ensures
        trimmed(text.push(c)) == trimmed(text),
    decreases text.len(),
{
    let longer = text.push(c);
    assert(longer.last() == c);
    if text.len() == 0 {
        assert(longer.first() == c);
        assert(longer.drop_first() =~= Seq::<char>::empty());
        assert(trimmed_start(longer) == trimmed_start(longer.drop_first()));
    } else if is_white_space(text.first()) {
        assert(longer.first() == text.first());
        assert(longer.drop_first() =~= text.drop_first().push(c));
        lemma_trimmed_before_whitespace(text.drop_first(), c);
        assert(trimmed_start(longer) == trimmed_start(longer.drop_first()));
        assert(trimmed_start(text) == trimmed_start(text.drop_first()));
    } else {
        assert(longer.first() == text.first());
        assert(longer.drop_last() =~= text);
        assert(trimmed_start(longer) == longer);
        assert(trimmed_start(text) == text);
        assert(trimmed_end(longer) == trimmed_end(longer.drop_last()));
    }
}

/// What trimming leaves neither starts nor ends in whitespace, and trimming
/// it again changes nothing.
pub proof fn lemma_trimmed_has_plain_ends(text: Seq<char>)
    ensures
        trimmed(text).len() > 0 ==> !is_white_space(trimmed(text).first()) && !is_white_space(
            trimmed(text).last(),
        ),
        trimmed(trimmed(text)) == trimmed(text),
{
    lemma_trimmed_start_shape(text);
    lemma_trimmed_end_shape(trimmed_start(text));
    lemma_trimmed_plain(trimmed(text));
}

/// What is left without the whitespace at the start is the end of the
/// text, and starts in no whitespace.
proof fn lemma_trimmed_start_shape(text: Seq<char>)
    ensures
        trimmed_start(text).len() <= text.len(),
        trimmed_start(text) == text.skip(text.len() - trimmed_start(text).len()),
        trimmed_start(text).len() > 0 ==> !is_white_space(trimmed_start(text).first()),
    decreases text.len(),
{
    if text.len() > 0 && is_white_space(text.first()) {
        lemma_trimmed_start_shape(text.drop_first());
        let kept = trimmed_start(text);
        assert(text.drop_first().skip(text.len() - 1 - kept.len()) =~= text.skip(
            text.len() - kept.len(),
        ));
    } else {
        assert(text.skip(0) =~= text);
    }
}

/// What is left without the whitespace at the end is the start of the
/// text, and ends in no whitespace.
proof fn lemma_trimmed_end_shape(text: Seq<char>)
    ensures
        trimmed_end(text).len() <= text.len(),
        trimmed_end(text) == text.take(trimmed_end(text).len() as int),
        trimmed_end(text).len() > 0 ==> !is_white_space(trimmed_end(text).last()),
    decreases text.len(),
{
    if text.len() > 0 && is_white_space(text.last()) {
        lemma_trimmed_end_shape(text.drop_last());
        let kept = trimmed_end(text);
        assert(text.drop_last().take(kept.len() as int) =~= text.take(kept.len() as int));
    } else {
        assert(text.take(text.len() as int) =~= text);
    }
}

/// Whether two strings hold the same characters. Two strings do exactly
/// where their UTF-8 encodings hold the same bytes.
pub fn str_eq(left: &str, right: &str) -> (equal: bool)
    ensures
        equal == (left@ == right@),
{
    let a = left.as_bytes();
    let b = right.as_bytes();
    proof {
        encode_utf8_decode_utf8(left@);
        encode_utf8_decode_utf8(right@);
    }
    if a.len() != b.len() {
        return false;
    }
    let mut i: usize = 0;
    while i < a.len()
        invariant
            i <= a@.len(),
            a@.len() == b@.len(),
            a@ == left.spec_bytes(),
            b@ == right.spec_bytes(),
            decode_utf8(left.spec_bytes()) == left@,
            decode_utf8(right.spec_bytes()) == right@,
            forall|j: int| 0 <= j < i ==> a@[j] == b@[j],
        decreases a@.len() - i,
    {
        if a[i] != b[i] {
            return false;
        }
        i += 1;
    }
    assert(a@ =~= b@);
    true
}

/// Whether a character is whitespace.
pub fn is_whitespace(c: char) -> (white: bool)
    ensures
        white == is_white_space(c),
{
    (c >= '\u{9}' && c <= '\u{d}') || c == ' ' || c == '\u{85}' || c == '\u{a0}' || c
        == '\u{1680}' || (c >= '\u{2000}' && c <= '\u{200a}') || c == '\u{2028}' || c
        == '\u{2029}' || c == '\u{202f}' || c == '\u{205f}' || c == '\u{3000}'
}

/// A text without the whitespace at both of its ends.
pub fn trim(text: &str) -> (inner: &str)
    ensures
        inner@ == trimmed(text@),
{
    let len = text.unicode_len();
    let mut start: usize = 0;
    proof {
        assert(text@.skip(0) =~= text@);
    }
    while start < len && is_whitespace(text.get_char(start))
        invariant
            start <= len,
            len == text@.len(),
            trimmed_start(text@) == trimmed_start(text@.skip(start as int)),
        decreases len - start,
    {
        proof {
            let rest = text@.skip(start as int);
            assert(rest.first() == text@[start as int]);
            assert(rest.drop_first() =~= text@.skip(start + 1));
        }
        start += 1;
    }
    proof {
        let rest = text@.skip(start as int);
        if start < len {
            assert(rest.first() == text@[start as int]);
        }
        assert(rest =~= text@.subrange(start as int, len as int));
    }
    let mut end: usize = len;
    while end > start && is_whitespace(text.get_char(end - 1))
        invariant
            start <= end <= len,
            len == text@.len(),
            trimmed(text@) == trimmed_end(text@.subrange(start as int, end as int)),
        decreases end,
    {
        proof {
            let kept = text@.subrange(start as int, end as int);
            assert(kept.last() == text@[end - 1]);
            assert(kept.drop_last() =~= text@.subrange(start as int, end - 1));
        }
        end -= 1;
    }
    proof {
        let kept = text@.subrange(start as int, end as int);
        if end > start {
            assert(kept.last() == text@[end - 1]);
        }
    }
    text.substring_char(start, end)
}

/// Number of bytes of a buffer that are taken for a C string, where a read
/// has filled the first `read` of them: those, and one more for the zero
/// that ends the string, as far as the buffer reaches.
pub open spec fn c_string_span(buffer: Seq<u8>, read: nat) -> nat {
    if read < buffer.len() {
        read + 1
    } else {
        buffer.len()
    }
}

/// The bytes of the C string at the start of a buffer: what stands before
/// the zero that ends the span, where the span ends in a zero and holds no
/// other.
pub open spec fn c_string_of(buffer: Seq<u8>, read: nat) -> Option<Seq<u8>> {
    let span = c_string_span(buffer, read);
    if span >= 1 && buffer[span - 1] == 0 && forall|i: int|
        0 <= i < span - 1 ==> buffer[i] != 0 {
        Some(buffer.subrange(0, span - 1))
    } else {
        None
    }
}

/// The content of the C string that a read of `read` bytes left at the
/// start of a zeroed buffer. `None` where the bytes read hold a zero, or
/// fill the buffer so that no zero ends them.
pub fn c_string_content(buffer: &[u8], read: usize) -> (content: Option<&[u8]>)
    ensures
        match c_string_of(buffer@, read as nat) {
            Some(bytes) => content matches Some(found) && found@ == bytes,
            None => content is None,
        },
{
    let span = if read < buffer.len() {
        read + 1
    } else {
        buffer.len()
    };
    if span == 0 || buffer[span - 1] != 0 {
        return None;
    }
    let mut i: usize = 0;
    while i < span - 1
        invariant
            1 <= span <= buffer@.len(),
            span == c_string_span(buffer@, read as nat),
            i <= span - 1,
            forall|j: int| 0 <= j < i ==> buffer@[j] != 0,
        decreases span - 1 - i,
    {
        if buffer[i] == 0 {
            assert(buffer@[i as int] == 0);
            return None;
        }
        i += 1;
    }
    Some(slice_subrange(buffer, 0, span - 1))
}

/// The sixteen hexadecimal digits, in lower case.
pub open spec fn hex_chars() -> Seq<char> {
    seq!['0', '1', '2', '3', '4', '5', '6', '7', '8', '9', 'a', 'b', 'c', 'd', 'e', 'f']
}

/// The weight of a hexadecimal digit of a 16-bit value, by its position
/// from the right.
pub open spec fn hex_weight(position: int) -> int {
    if position == 0 {
        1
    } else if position == 1 {
        0x10
    } else if position == 2 {
        0x100
    } else {
        0x1000
    }
}

/// Number of hexadecimal digits that a value needs: at least one.
pub open spec fn hex_len(value: u16) -> nat {
    if value >= 0x1000 {
        4
    } else if value >= 0x100 {
        3
    } else if value >= 0x10 {
        2
    } else {
        1
    }
}

/// A value in hexadecimal digits, lower case, filled with zeros from the
/// left up to `min_digits` of them.
pub open spec fn hex_digits(value: u16, min_digits: nat) -> Seq<char> {
    let count = if hex_len(value) >= min_digits {
        hex_len(value)
    } else {
        min_digits
    };
    Seq::new(count, |i: int| hex_chars()[(value as int / hex_weight(count - 1 - i)) % 16])
}

/// A value as `0x` and its hexadecimal digits, at least `min_digits` of
/// them.
pub open spec fn hex_prefixed(value: u16, min_digits: nat) -> Seq<char> {
    "0x"@ + hex_digits(value, min_digits)
}

/// The text of one hexadecimal digit.
fn hex_digit_text(digit: u16) -> (text: &'static str)
    requires
        digit < 16,
    ensures
        text@ == seq![hex_chars()[digit as int]],
{
    proof {
        reveal_strlit("0");
        reveal_strlit("1");
        reveal_strlit("2");
        reveal_strlit("3");
        reveal_strlit("4");
        reveal_strlit("5");
        reveal_strlit("6");
        reveal_strlit("7");
        reveal_strlit("8");
        reveal_strlit("9");
        reveal_strlit("a");
        reveal_strlit("b");
        reveal_strlit("c");
        reveal_strlit("d");
        reveal_strlit("e");
        reveal_strlit("f");
    }
    let text = if digit == 0 {
        "0"
    } else if digit == 1 {
        "1"
    } else if digit == 2 {
        "2"
    } else if digit == 3 {
        "3"
    } else if digit == 4 {
        "4"
    } else if digit == 5 {
        "5"
    } else if digit == 6 {
        "6"
    } else if digit == 7 {
        "7"
    } else if digit == 8 {
        "8"
    } else if digit == 9 {
        "9"
    } else if digit == 10 {
        "a"
    } else if digit == 11 {
        "b"
    } else if digit == 12 {
        "c"
    } else if digit == 13 {
        "d"
    } else if digit == 14 {
        "e"
    } else {
        "f"
    };
    assert(text@ =~= seq![hex_chars()[digit as int]]);
    text
}

/// Appends a value in hexadecimal digits, filled with zeros from the left
/// up to `min_digits` of them.
pub(crate) fn push_hex(out: &mut String, value: u16, min_digits: usize)
    requires
        1 <= min_digits <= 4,
    ensures
        final(out)@ == old(out)@ + hex_digits(value, min_digits as nat),
{
    let needed: usize = if value >= 0x1000 {
        4
    } else if value >= 0x100 {
        3
    } else if value >= 0x10 {
        2
    } else {
        1
    };
    let count: usize = if needed >= min_digits {
        needed
    } else {
        min_digits
    };
    let ghost digits = hex_digits(value, min_digits as nat);
    let mut i: usize = 0;
    while i < count
        invariant
            i <= count <= 4,
            digits == hex_digits(value, min_digits as nat),
            digits.len() == count,
            out@ == old(out)@ + digits.subrange(0, i as int),
        decreases count - i,
    {
        let position = count - 1 - i;
        let weight: u16 = if position == 0 {
            1
        } else if position == 1 {
            0x10
        } else if position == 2 {
            0x100
        } else {
            0x1000
        };
        let ghost before = out@;
        out.append(hex_digit_text((value / weight) % 16));
        assert(out@ =~= old(out)@ + digits.subrange(0, i + 1)) by {
            assert(digits.subrange(0, i + 1) =~= digits.subrange(0, i as int) + seq![
                digits[i as int],
            ]);
        }
        i += 1;
    }
    assert(digits.subrange(0, count as int) =~= digits);
}

/// A value in four hexadecimal digits.
pub fn hex_padded(value: u16) -> (text: String)
    ensures
        text@ == hex_digits(value, 4),
{
    let mut text = String::new();
    push_hex(&mut text, value, 4);
    text
}

/// A value as `0x` and its hexadecimal digits, at least two of them.
pub fn hex(value: u16) -> (text: String)
    ensures
        text@ == hex_prefixed(value, 2),
{
    let mut text = String::new();
    text.append("0x");
    push_hex(&mut text, value, 2);
    assert(text@ =~= hex_prefixed(value, 2));
    text
}

} // verus!
