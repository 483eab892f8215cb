//! Amounts as the payment provider wants them written: whole units, a point,
//! and two digits of cents.

use vstd::prelude::*;

verus! {

/// The character for the digit `d`.
pub open spec fn digit_char(d: int) -> char {
    if d == 0 {
        '0'
    } else if d == 1 {
        '1'
    } else if d == 2 {
        '2'
    } else if d == 3 {
        '3'
    } else if d == 4 {
        '4'
    } else if d == 5 {
        '5'
    } else if d == 6 {
        '6'
    } else if d == 7 {
        '7'
    } else if d == 8 {
        '8'
    } else {
        '9'
    }
}

/// The digit that the character `c` stands for; zero for any other character.
pub open spec fn digit_value(c: char) -> int {
    if c == '1' {
        1
    } else if c == '2' {
        2
    } else if c == '3' {
        3
    } else if c == '4' {
        4
    } else if c == '5' {
        5
    } else if c == '6' {
        6
    } else if c == '7' {
        7
    } else if c == '8' {
        8
    } else if c == '9' {
        9
    } else {
        0
    }
}

/// The decimal digits of `n`, without leading zeros.
pub open spec fn decimal(n: nat) -> Seq<char>
    decreases n,
{
    if n < 10 {
        seq![digit_char(n as int)]
    } else {
        decimal(n / 10).push(digit_char((n % 10) as int))
    }
}

/// The number that a text of decimal digits stands for.
pub open spec fn decimal_value(digits: Seq<char>) -> nat
    decreases digits.len(),
{
    if digits.len() == 0 {
        0
    } else {
        (10 * decimal_value(digits.drop_last()) + digit_value(digits.last())) as nat
    }
}

/// The two digits of `n`, with a leading zero where `n` is below ten.
pub open spec fn two_digits(n: nat) -> Seq<char> {
    seq![digit_char((n / 10) as int), digit_char((n % 10) as int)]
}

/// The text of an amount of `cents`: the whole units, a point, and two
/// digits of cents.
pub open spec fn amount_text(cents: nat) -> Seq<char> {
    decimal(cents / 100) + seq!['.'] + two_digits(cents % 100)
}

/// The decimal digits of a number read back give the number.
pub proof fn law_decimal_reads_back(n: nat)
    ensures
        decimal_value(decimal(n)) == n,
        decimal(n).len() >= 1,
    decreases n,
{
    if n < 10 {
        let s = decimal(n);
        assert(s.drop_last() =~= Seq::<char>::empty());
        assert(decimal_value(s.drop_last()) == 0);
    } else {
        law_decimal_reads_back(n / 10);
        let s = decimal(n);
        assert(s.drop_last() =~= decimal(n / 10));
        assert(s.last() == digit_char((n % 10) as int));
    }
}

/// The text of an amount read back gives the amount: the digits before the
/// point are the whole units, the two after it the cents.
pub proof fn law_amount_text_reads_back(cents: nat)
    ensures
        ({
            let text = amount_text(cents);
            let point = decimal(cents / 100).len() as int;
            &&& text.len() == point + 3
            &&& text[point] == '.'
            &&& 100 * decimal_value(text.subrange(0, point)) + decimal_value(
                text.subrange(point + 1, point + 3),
            ) == cents
        }),
{
    let text = amount_text(cents);
    let whole = decimal(cents / 100);
    let point = whole.len() as int;
    law_decimal_reads_back(cents / 100);
    assert(text.subrange(0, point) =~= whole);
    let tail = text.subrange(point + 1, point + 3);
    assert(tail =~= two_digits(cents % 100));
    assert(tail.drop_last() =~= seq![digit_char(((cents % 100) / 10) as int)]);
    assert(tail.drop_last().drop_last() =~= Seq::<char>::empty());
    assert(decimal_value(tail.drop_last().drop_last()) == 0);
    assert(decimal_value(tail.drop_last()) == (cents % 100) / 10);
    assert(decimal_value(tail) == cents % 100);
}

/// The character for the digit `d`.
fn digit(d: u64) -> (c: char)
    requires
        d < 10,
    ensures
        c == digit_char(d as int),
{
    if d == 0 {
        '0'
    } else if d == 1 {
        '1'
    } else if d == 2 {
        '2'
    } else if d == 3 {
        '3'
    } else if d == 4 {
        '4'
    } else if d == 5 {
        '5'
    } else if d == 6 {
        '6'
    } else if d == 7 {
        '7'
    } else if d == 8 {
        '8'
    } else {
        '9'
    }
}

/// Appends the decimal digits of `n` to `text`.
pub fn push_decimal(text: &mut String, n: u64)
    ensures
        final(text)@ == old(text)@ + decimal(n as nat),
    decreases n,
{
    if n >= 10 {
        push_decimal(text, n / 10);
    }
    text.push(digit(n % 10));
    proof {
        if n >= 10 {
            assert((old(text)@ + decimal((n / 10) as nat)).push(digit_char((n % 10) as int))
                =~= old(text)@ + decimal(n as nat));
        } else {
            assert(old(text)@.push(digit_char(n as int)) =~= old(text)@ + decimal(n as nat));
        }
    }
}

/// The decimal digits of `n`.
pub fn decimal_text(n: u64) -> (text: String)
    ensures
        text@ == decimal(n as nat),
{
    let mut text = String::new();
    push_decimal(&mut text, n);
    assert(Seq::<char>::empty() + decimal(n as nat) =~= decimal(n as nat));
    text
}

/// The decimal digits of `n`, after a minus sign where `n` is negative.
pub open spec fn signed_decimal(n: int) -> Seq<char> {
    if n < 0 {
        seq!['-'] + decimal((-n) as nat)
    } else {
        decimal(n as nat)
    }
}

/// Appends the decimal digits of `n`, after a minus sign where `n` is
/// negative, to `text`.
pub fn push_signed(text: &mut String, n: i64)
    ensures
        final(text)@ == old(text)@ + signed_decimal(n as int),
{
    if n < 0 {
        text.push('-');
        let magnitude: u64 = (-(n as i128)) as u64;
        push_decimal(text, magnitude);
        proof {
            assert(old(text)@.push('-') + decimal((-n) as nat) =~= old(text)@ + signed_decimal(
                n as int,
            ));
        }
    } else {
        push_decimal(text, n as u64);
    }
}

/// The text of an amount of `cents`, or `None` for a negative amount, which
/// has no such text.
pub fn format_amount(cents: i64) -> (r: Option<String>)
    ensures
        r is Some <==> cents >= 0,
        r matches Some(text) ==> text@ == amount_text(cents as nat),
{
    if cents < 0 {
        return None;
    }
    let value: u64 = cents as u64;
    let mut text = String::new();
    push_decimal(&mut text, value / 100);
    text.push('.');
    let rest: u64 = value % 100;
    text.push(digit(rest / 10));
    text.push(digit(rest % 10));
    proof {
        assert(text@ =~= amount_text(cents as nat));
    }
    Some(text)
}

} // verus!
