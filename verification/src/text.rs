//! The countdown as text: minutes and seconds, each in at least two decimal
//! digits, with a colon between them.

use vstd::prelude::*;
use vstd::string::StringExecFns;

verus! {

/// The character of a decimal digit.
pub open spec fn digit_char(d: nat) -> char
    recommends
        d < 10,
{
    ('0' as nat + d) as char
}

/// `n` written in decimal, without leading zeros.
pub open spec fn decimal(n: nat) -> Seq<char>
    decreases n,
{
    if n < 10 {
        seq![digit_char(n)]
    } else {
        decimal(n / 10).push(digit_char(n % 10))
    }
}

/// `n` written in decimal and padded with a zero to two digits.
pub open spec fn two_digits(n: nat) -> Seq<char> {
    if n < 10 {
        seq!['0', digit_char(n)]
    } else {
        decimal(n)
    }
}

/// A number of seconds as minutes and seconds.
pub open spec fn clock_text(seconds: nat) -> Seq<char> {
    two_digits(seconds / 60) + seq![':'] + two_digits(seconds % 60)
}

/// Whether `c` is one of the ten decimal digits.
pub open spec fn is_digit(c: char) -> bool {
    '0' <= c <= '9'
}

/// The number that a sequence of decimal digits writes; leading zeros count
/// for nothing.
pub open spec fn decimal_value(digits: Seq<char>) -> nat
    decreases digits.len(),
{
    if digits.len() == 0 {
        0
    } else {
        decimal_value(digits.drop_last()) * 10 + (digits.last() as nat - '0' as nat) as nat
    }
}

/// The decimal form of `n` is made of digits, at least one, starts with a
/// zero only if `n` is zero, and reads back as `n`.
pub proof fn lemma_decimal_reads_back(n: nat)
    ensures
        decimal(n).len() >= 1,
        forall|i: int| 0 <= i < decimal(n).len() ==> is_digit(#[trigger] decimal(n)[i]),
        n >= 1 ==> decimal(n)[0] != '0',
        n < 10 <==> decimal(n).len() == 1,
        decimal_value(decimal(n)) == n,
    decreases n,
{
    if n < 10 {
        assert(decimal(n).drop_last() =~= Seq::<char>::empty());
        assert(decimal_value(decimal(n).drop_last()) == 0);
    } else {
        lemma_decimal_reads_back(n / 10);
        assert(decimal(n).drop_last() =~= decimal(n / 10));
    }
}

/// The padded form of `n` is made of digits, at least two, exactly two below
/// a hundred, and reads back as `n`.
pub proof fn lemma_two_digits_reads_back(n: nat)
    ensures
        two_digits(n).len() >= 2,
        forall|i: int| 0 <= i < two_digits(n).len() ==> is_digit(#[trigger] two_digits(n)[i]),
        n < 100 <==> two_digits(n).len() == 2,
        decimal_value(two_digits(n)) == n,
{
    lemma_decimal_reads_back(n);
    if n < 10 {
        assert(two_digits(n).drop_last() =~= seq!['0']);
        assert(seq!['0'].drop_last() =~= Seq::<char>::empty());
        assert(decimal_value(seq!['0'].drop_last()) == 0);
        assert(decimal_value(seq!['0']) == 0);
    } else {
        lemma_decimal_reads_back(n / 10);
    }
}

/// Below a hundred, the padded form is the tens digit and the units digit.
pub proof fn lemma_two_digits_shape(n: nat)
    requires
        n < 100,
    ensures
        two_digits(n) == seq![digit_char(n / 10), digit_char(n % 10)],
{
    if n >= 10 {
        assert(decimal(n / 10) == seq![digit_char(n / 10)]);
    }
}

/// Below a hundred minutes, the text is two digits of minutes, a colon and
/// two digits of seconds.
pub proof fn lemma_clock_text_shape(seconds: nat)
    requires
        seconds < 6000,
    ensures
        clock_text(seconds) == seq![
            digit_char(seconds / 60 / 10),
            digit_char(seconds / 60 % 10),
            ':',
            digit_char(seconds % 60 / 10),
            digit_char(seconds % 60 % 10),
        ],
        clock_text(seconds).len() == 5,
{
    lemma_two_digits_shape(seconds / 60);
    lemma_two_digits_shape(seconds % 60);
}

/// The one-character text of a decimal digit.
fn digit_str(d: u64) -> (text: &'static str)
    requires
        d < 10,
    ensures
        text@ == seq![digit_char(d as nat)],
{
    proof {
        reveal_strlit("0");
        reveal_strlit("1");
        reveal_strlit("2");
        reveal_strlit("3");
        reveal_strlit("4");
        reveal_strlit("5");
        reveal_strlit("6");
        reveal_strlit("7");
        reveal_strlit("8");
        reveal_strlit("9");
    }
    match d {
        0 => "0",
        1 => "1",
        2 => "2",
        3 => "3",
        4 => "4",
        5 => "5",
        6 => "6",
        7 => "7",
        8 => "8",
        _ => "9",
    }
}

/// Appends `n` in decimal: the digits before the last, then the last.
fn push_decimal(out: &mut String, n: u64)
    ensures
        final(out)@ == old(out)@ + decimal(n as nat),
    decreases n,
{
    if n >= 10 {
        push_decimal(out, n / 10);
    }
    out.append(digit_str(n % 10));
}

/// Appends `n` in decimal, after a zero if it has a single digit.
fn push_two_digits(out: &mut String, n: u64)
    ensures
        final(out)@ == old(out)@ + two_digits(n as nat),
{
    if n < 10 {
        proof {
            reveal_strlit("0");
        }
        out.append("0");
    }
    push_decimal(out, n);
}

/// Writes `seconds` as minutes and seconds.
pub fn clock_string(seconds: u64) -> (text: String)
    ensures
        text@ == clock_text(seconds as nat),
{
    let mut text = String::new();
    push_two_digits(&mut text, seconds / 60);
    proof {
        reveal_strlit(":");
    }
    text.append(":");
    push_two_digits(&mut text, seconds % 60);
    text
}

} // verus!
