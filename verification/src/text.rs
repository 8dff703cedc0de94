use vstd::prelude::*;
use vstd::string::*;

verus! {

/// The character for a digit below sixteen: `0` to `9`, then `a` to `f`.
/// Larger values, which no numeral has, are given `f` as well.
pub open spec fn digit_char(digit: nat) -> char {
    if digit == 0 {
        '0'
    } else if digit == 1 {
        '1'
    } else if digit == 2 {
        '2'
    } else if digit == 3 {
        '3'
    } else if digit == 4 {
        '4'
    } else if digit == 5 {
        '5'
    } else if digit == 6 {
        '6'
    } else if digit == 7 {
        '7'
    } else if digit == 8 {
        '8'
    } else if digit == 9 {
        '9'
    } else if digit == 10 {
        'a'
    } else if digit == 11 {
        'b'
    } else if digit == 12 {
        'c'
    } else if digit == 13 {
        'd'
    } else if digit == 14 {
        'e'
    } else {
        'f'
    }
}

/// A number in lower-case hexadecimal, without prefix or leading zeros;
/// zero is written as `0`.
pub open spec fn lower_hex(value: nat) -> Seq<char>
    decreases value,
{
    if value < 16 {
        seq![digit_char(value)]
    } else {
        lower_hex(value / 16).push(digit_char(value % 16))
    }
}

/// A number in decimal, without leading zeros; zero is written as `0`.
pub open spec fn decimal(value: nat) -> Seq<char>
    decreases value,
{
    if value < 10 {
        seq![digit_char(value)]
    } else {
        decimal(value / 10).push(digit_char(value % 10))
    }
}

/// An integer in decimal, with a leading `-` when it is negative.
pub open spec fn decimal_text(value: int) -> Seq<char> {
    if value < 0 {
        seq!['-'] + decimal((-value) as nat)
    } else {
        decimal(value as nat)
    }
}

/// The one-character text for a digit; every value above fourteen is
/// written as `f`, as `digit_char` has it.
pub fn digit_text(digit: u64) -> (text: &'static str)
    ensures
        text@ == seq![digit_char(digit as nat)],
{
    proof {
        reveal_strlit("0");
        reveal_strlit("1");
        reveal_strlit("2");
        reveal_strlit("3");
        reveal_strlit("4");
        reveal_strlit("5");
        reveal_strlit("6");
        reveal_strlit("7");
        reveal_strlit("8");
        reveal_strlit("9");
        reveal_strlit("a");
        reveal_strlit("b");
        reveal_strlit("c");
        reveal_strlit("d");
        reveal_strlit("e");
        reveal_strlit("f");
    }
    let text = if digit == 0 {
        "0"
    } else if digit == 1 {
        "1"
    } else if digit == 2 {
        "2"
    } else if digit == 3 {
        "3"
    } else if digit == 4 {
        "4"
    } else if digit == 5 {
        "5"
    } else if digit == 6 {
        "6"
    } else if digit == 7 {
        "7"
    } else if digit == 8 {
        "8"
    } else if digit == 9 {
        "9"
    } else if digit == 10 {
        "a"
    } else if digit == 11 {
        "b"
    } else if digit == 12 {
        "c"
    } else if digit == 13 {
        "d"
    } else if digit == 14 {
        "e"
    } else {
        "f"
    };
    assert(text@ =~= seq![digit_char(digit as nat)]);
    text
}

/// Appends `value` in lower-case hexadecimal to `out`.
pub fn push_hex(out: &mut String, value: u64)
    ensures
        final(out)@ == old(out)@ + lower_hex(value as nat),
    decreases value,
{
    if value >= 16 {
        push_hex(out, value / 16);
    }
    out.append(digit_text(value % 16));
    assert(out@ =~= old(out)@ + lower_hex(value as nat));
}

/// Appends `value` in decimal to `out`.
pub fn push_decimal(out: &mut String, value: u64)
    ensures
        final(out)@ == old(out)@ + decimal(value as nat),
    decreases value,
{
    if value >= 10 {
        push_decimal(out, value / 10);
    }
    out.append(digit_text(value % 10));
    assert(out@ =~= old(out)@ + decimal(value as nat));
}

/// `digest` in lower-case hexadecimal, without prefix or leading zeros.
pub fn hex_text(digest: u64) -> (text: String)
    ensures
        text@ == lower_hex(digest as nat),
{
    let mut text = String::new();
    push_hex(&mut text, digest);
    assert(text@ =~= lower_hex(digest as nat));
    text
}

/// Appends `id` in decimal to `out`.
pub fn push_id(out: &mut String, id: i32)
    ensures
        final(out)@ == old(out)@ + decimal_text(id as int),
{
    if id < 0 {
        proof {
            reveal_strlit("-");
        }
        out.append("-");
        assert(out@ =~= old(out)@ + seq!['-']);
        let magnitude: u64 = (-(id as i64)) as u64;
        push_decimal(out, magnitude);
        assert(out@ =~= old(out)@ + decimal_text(id as int));
    } else {
        push_decimal(out, id as u64);
    }
}

/// A number in hexadecimal has at least one digit.
pub proof fn lemma_hex_not_empty(value: nat)
    ensures
        lower_hex(value).len() >= 1,
    decreases value,
{
    if value >= 16 {
        lemma_hex_not_empty(value / 16);
    }
}

/// Two numbers with the same hexadecimal text are the same number.
pub proof fn lemma_hex_injective(first: nat, second: nat)
    requires
        lower_hex(first) == lower_hex(second),
    ensures
        first == second,
    decreases first,
{
    lemma_hex_not_empty(first / 16);
    lemma_hex_not_empty(second / 16);
    if first < 16 && second < 16 {
        assert(lower_hex(first)[0] == digit_char(first));
        assert(lower_hex(second)[0] == digit_char(second));
        assert(first == second);
    } else if first >= 16 && second >= 16 {
        let head = lower_hex(first / 16);
        let other = lower_hex(second / 16);
        assert(head =~= lower_hex(first).drop_last());
        assert(other =~= lower_hex(second).drop_last());
        assert(lower_hex(first).last() == digit_char(first % 16));
        assert(lower_hex(second).last() == digit_char(second % 16));
        lemma_hex_injective(first / 16, second / 16);
        assert(first / 16 == second / 16);
        assert(first % 16 == second % 16);
        assert(first == second);
    } else if first < 16 {
        assert(lower_hex(first).len() == 1);
        assert(lower_hex(second).len() == lower_hex(second / 16).len() + 1);
        assert(false);
    } else {
        assert(lower_hex(second).len() == 1);
        assert(lower_hex(first).len() == lower_hex(first / 16).len() + 1);
        assert(false);
    }
}

/// A number in decimal consists of decimal digits only, and of at least
/// one.
pub proof fn lemma_decimal_digits(value: nat)
    ensures
        decimal(value).len() >= 1,
        forall|i: int|
            0 <= i < decimal(value).len() ==> '0' <= #[trigger] decimal(value)[i] <= '9',
    decreases value,
{
    if value >= 10 {
        lemma_decimal_digits(value / 10);
    }
}

} // verus!
