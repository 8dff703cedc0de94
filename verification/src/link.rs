use crate::text::{decimal, decimal_text, digit_char, lemma_decimal_digits, push_id};
use vstd::utf8::{encode_utf8, is_ascii_chars, is_ascii_chars_encode_utf8};
use vstd::prelude::*;
use vstd::slice::slice_subrange;
use vstd::string::*;

verus! {

/// The byte `x`, which encloses the id in a link.
pub const DELIMITER: u8 = 0x78;

/// The position of the first `x` at or after `from`, or the length of
/// `bytes` when there is none.
pub open spec fn first_x(bytes: Seq<u8>, from: int) -> int
    decreases bytes.len() - from,
{
    if from < 0 || from >= bytes.len() {
        bytes.len() as int
    } else if bytes[from] == DELIMITER {
        from
    } else {
        first_x(bytes, from + 1)
    }
}

/// The part of a path that holds the id: what stands between the first `x`
/// and the next one, or the end of the path when no second `x` follows.
/// A path without `x` has no such part.
pub open spec fn id_segment(bytes: Seq<u8>) -> Option<Seq<u8>> {
    let opening = first_x(bytes, 0);
    if opening >= bytes.len() {
        None
    } else {
        Some(bytes.subrange(opening + 1, first_x(bytes, opening + 1)))
    }
}

/// Whether a byte is a decimal digit.
pub open spec fn is_digit(byte: u8) -> bool {
    0x30 <= byte <= 0x39
}

/// Whether every byte is a decimal digit.
pub open spec fn all_digits(bytes: Seq<u8>) -> bool {
    forall|i: int| 0 <= i < bytes.len() ==> is_digit(#[trigger] bytes[i])
}

/// The number that a string of decimal digits denotes.
pub open spec fn digits_value(digits: Seq<u8>) -> nat
    decreases digits.len(),
{
    if digits.len() == 0 {
        0
    } else {
        digits_value(digits.drop_last()) * 10 + (digits.last() - 0x30) as nat
    }
}

/// Whether the text starts with `-`.
pub open spec fn is_negative(text: Seq<u8>) -> bool {
    text.len() > 0 && text[0] == 0x2d
}

/// The digits of a signed decimal number: the text without a leading `+`
/// or `-`.
pub open spec fn unsigned_part(text: Seq<u8>) -> Seq<u8> {
    if text.len() > 0 && (text[0] == 0x2d || text[0] == 0x2b) {
        text.subrange(1, text.len() as int)
    } else {
        text
    }
}

/// The integer that a text denotes: an optional sign and at least one
/// decimal digit, nothing else, with a value that fits `i32`. Any other text
/// denotes no integer.
pub open spec fn number_of(text: Seq<u8>) -> Option<i32> {
    let digits = unsigned_part(text);
    let value = if is_negative(text) {
        -(digits_value(digits) as int)
    } else {
        digits_value(digits) as int
    };
    if digits.len() > 0 && all_digits(digits) && i32::MIN <= value <= i32::MAX {
        Some(value as i32)
    } else {
        None
    }
}

/// The task id that a path carries: the integer denoted by its id segment.
pub open spec fn id_in_path(bytes: Seq<u8>) -> Option<i32> {
    match id_segment(bytes) {
        Some(text) => number_of(text),
        None => None,
    }
}

/// The value of a string of digits is at least the value of each of its
/// prefixes.
proof fn lemma_value_grows(digits: Seq<u8>, length: int)
    requires
        0 <= length <= digits.len(),
        all_digits(digits),
    ensures
        digits_value(digits.subrange(0, length)) <= digits_value(digits),
    decreases digits.len(),
{
    if length == digits.len() {
        assert(digits.subrange(0, length) =~= digits);
    } else {
        let shorter = digits.drop_last();
        assert(shorter.subrange(0, length) =~= digits.subrange(0, length));
        lemma_value_grows(shorter, length);
        assert(is_digit(digits[digits.len() - 1]));
    }
}

/// The position of the first `x` at or after `from`, or the length of the
/// slice when there is none.
pub fn find_x(bytes: &[u8], from: usize) -> (found: usize)
    ensures
        found == first_x(bytes@, from as int),
        found <= bytes.len(),
{
    let mut index = from;
    while index < bytes.len()
        invariant
            from <= index,
            first_x(bytes@, from as int) == first_x(bytes@, index as int),
        decreases bytes.len() - index,
    {
        if bytes[index] == DELIMITER {
            return index;
        }
        index = index + 1;
    }
    bytes.len()
}

/// The integer that `text` denotes, or `None` when it denotes none.
pub fn read_number(text: &[u8]) -> (number: Option<i32>)
    ensures
        number == number_of(text@),
{
    let end = text.len();
    if end == 0 {
        return None;
    }
    let negative = text[0] == 0x2d;
    let signed = negative || text[0] == 0x2b;
    let first: usize = if signed {
        1
    } else {
        0
    };
    let ghost digits = unsigned_part(text@);
    assert(digits =~= text@.subrange(first as int, end as int));
    if first == end {
        return None;
    }
    let limit: u64 = 2147483648;
    let mut value: u64 = 0;
    let mut index: usize = first;
    while index < end
        invariant
            first <= index <= end == text.len(),
            digits == text@.subrange(first as int, end as int),
            digits == unsigned_part(text@),
            value == digits_value(digits.subrange(0, index - first)),
            value <= limit,
            limit == 2147483648,
            forall|i: int| 0 <= i < index - first ==> is_digit(#[trigger] digits[i]),
        decreases end - index,
    {
        let byte = text[index];
        if byte < 0x30 || byte > 0x39 {
            assert(!is_digit(digits[index - first]));
            return None;
        }
        let ghost longer = digits.subrange(0, index - first + 1);
        assert(longer.drop_last() =~= digits.subrange(0, index - first));
        assert(longer.last() == byte);
        let next: u64 = value * 10 + (byte - 0x30) as u64;
        assert(next == digits_value(longer));
        if next > limit {
            proof {
                if all_digits(digits) {
                    lemma_value_grows(digits, index - first + 1);
                }
            }
            return None;
        }
        value = next;
        index = index + 1;
    }
    assert(digits.subrange(0, end - first) =~= digits);
    assert(all_digits(digits));
    if negative {
        let wide: i64 = -(value as i64);
        Some(wide as i32)
    } else if value < limit {
        Some(value as i32)
    } else {
        None
    }
}

/// The task id that a path carries, or `None` when its id segment is missing
/// or denotes no `i32`.
pub fn task_id_of_path(path: &str) -> (id: Option<i32>)
    ensures
        id == id_in_path(path.spec_bytes()),
{
    let bytes = path.as_bytes();
    let opening = find_x(bytes, 0);
    if opening >= bytes.len() {
        return None;
    }
    let closing = find_x(bytes, opening + 1);
    proof {
        lemma_first_x_bounds(bytes@, opening as int + 1);
    }
    read_number(slice_subrange(bytes, opening + 1, closing))
}

/// The first `x` at or after `from` is not before `from`.
proof fn lemma_first_x_bounds(bytes: Seq<u8>, from: int)
    requires
        0 <= from <= bytes.len(),
    ensures
        from <= first_x(bytes, from) <= bytes.len(),
    decreases bytes.len() - from,
{
    if from < bytes.len() && bytes[from] != DELIMITER {
        lemma_first_x_bounds(bytes, from + 1);
    }
}

/// The part of a link that carries id and token: `x`, the id in decimal,
/// `x`, the token.
pub open spec fn link_segment(id: int, token: Seq<char>) -> Seq<char> {
    seq!['x'] + decimal_text(id) + seq!['x'] + token
}

/// Appends the part of a link that carries id and token to `out`.
pub fn push_segment(out: &mut String, id: i32, token: &str)
    ensures
        final(out)@ == old(out)@ + link_segment(id as int, token@),
{
    proof {
        reveal_strlit("x");
    }
    out.append("x");
    push_id(out, id);
    out.append("x");
    out.append(token);
    assert(out@ =~= old(out)@ + link_segment(id as int, token@));
}

/// The bytes of a text of ASCII characters, one byte for each character.
pub open spec fn ascii_bytes(chars: Seq<char>) -> Seq<u8> {
    Seq::new(chars.len(), |i: int| chars[i] as u8)
}

/// The decimal text of a number, taken as bytes, is a string of digits that
/// denotes the number.
proof fn lemma_decimal_reads_back(value: nat)
    ensures
        all_digits(ascii_bytes(decimal(value))),
        digits_value(ascii_bytes(decimal(value))) == value,
    decreases value,
{
    lemma_decimal_digits(value);
    let bytes = ascii_bytes(decimal(value));
    if value < 10 {
        assert(bytes.drop_last() =~= Seq::<u8>::empty());
        assert(digits_value(bytes.drop_last()) == 0);
        assert(bytes.last() == digit_char(value) as u8);
    } else {
        lemma_decimal_reads_back(value / 10);
        assert(bytes.drop_last() =~= ascii_bytes(decimal(value / 10)));
        assert(bytes.last() == digit_char(value % 10) as u8);
    }
}

/// When no byte from `from` up to `at` is an `x` and the byte at `at` is
/// one, the first `x` at or after `from` is at `at`.
proof fn lemma_first_x_found(bytes: Seq<u8>, from: int, at: int)
    requires
        0 <= from <= at < bytes.len(),
        bytes[at] == DELIMITER,
        forall|i: int| from <= i < at ==> #[trigger] bytes[i] != DELIMITER,
    ensures
        first_x(bytes, from) == at,
    decreases at - from,
{
    if from < at {
        lemma_first_x_found(bytes, from + 1, at);
    }
}

/// The id that a link was built for is the id that is read from it: a path
/// that consists of `x`, an id in decimal, `x` and a token of ASCII
/// characters carries exactly that id.
pub proof fn lemma_link_carries_id(id: i32, token: Seq<char>)
    requires
        is_ascii_chars(token),
    ensures
        id_in_path(encode_utf8(link_segment(id as int, token))) == Some(id),
{
    let number = decimal_text(id as int);
    let magnitude: nat = if id < 0 {
        (-(id as int)) as nat
    } else {
        id as nat
    };
    lemma_decimal_digits(magnitude);
    lemma_decimal_reads_back(magnitude);
    let chars = link_segment(id as int, token);
    let width = number.len() as int;
    assert(chars.len() == width + 2 + token.len());
    assert(chars[0] == 'x');
    assert(chars[width + 1] == 'x');
    assert forall|i: int| 0 <= i < width implies #[trigger] chars[i + 1] == number[i] by {}
    assert forall|i: int| 0 <= i < token.len() implies #[trigger] chars[i + width + 2]
        == token[i] by {}
    assert forall|i: int| 0 <= i < width implies ('0' <= #[trigger] number[i] <= '9'
        || number[i] == '-') by {
        if id < 0 {
            if i > 0 {
                assert(number[i] == decimal(magnitude)[i - 1]);
            }
        } else {
            assert(number[i] == decimal(magnitude)[i]);
        }
    }
    assert(is_ascii_chars(chars)) by {
        assert forall|i: int| 0 <= i < chars.len() implies '\0' <= #[trigger] chars[i]
            <= '\u{7f}' by {
            if 1 <= i <= width {
                assert(chars[(i - 1) + 1] == number[i - 1]);
            } else if i >= width + 2 {
                assert(chars[(i - width - 2) + width + 2] == token[i - width - 2]);
            }
        }
    }
    is_ascii_chars_encode_utf8(chars);
    let bytes = encode_utf8(chars);
    assert forall|i: int| 0 <= i < chars.len() implies #[trigger] bytes[i] == chars[i] as u8 by {}
    assert(bytes[0] == DELIMITER);
    assert(first_x(bytes, 0) == 0);
    assert forall|i: int| 1 <= i < width + 1 implies #[trigger] bytes[i] != DELIMITER by {
        assert(chars[(i - 1) + 1] == number[i - 1]);
        assert(bytes[i] == chars[i] as u8);
    }
    lemma_first_x_found(bytes, 1, width + 1);
    let text = bytes.subrange(1, width + 1);
    assert(id_segment(bytes) == Some(text));
    assert(text =~= ascii_bytes(number)) by {
        assert forall|i: int| 0 <= i < width implies text[i] == #[trigger] ascii_bytes(number)[i] by {
            assert(chars[i + 1] == number[i]);
            assert(bytes[i + 1] == chars[i + 1] as u8);
        }
    }
    if id < 0 {
        assert(text[0] == 0x2d);
        assert(unsigned_part(text) =~= ascii_bytes(decimal(magnitude)));
    } else {
        assert(number[0] == decimal(magnitude)[0]);
        assert(text[0] == number[0] as u8);
        assert(unsigned_part(text) =~= ascii_bytes(decimal(magnitude)));
    }
}

} // verus!
