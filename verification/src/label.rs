//! The text of the time display: minutes and seconds, each written with at
//! least two decimal digits, with a colon between them.

use vstd::prelude::*;
use vstd::string::StringExecFns;

verus! {

/// The character that writes the digit `d`.
pub open spec fn digit_char(d: nat) -> char
    recommends
        d < 10,
{
    if d == 0 {
        '0'
    } else if d == 1 {
        '1'
    } else if d == 2 {
        '2'
    } else if d == 3 {
        '3'
    } else if d == 4 {
        '4'
    } else if d == 5 {
        '5'
    } else if d == 6 {
        '6'
    } else if d == 7 {
        '7'
    } else if d == 8 {
        '8'
    } else {
        '9'
    }
}

/// `n` in decimal, most significant digit first, without leading zeros.
pub open spec fn decimal(n: nat) -> Seq<char>
    decreases n,
{
    if n < 10 {
        seq![digit_char(n)]
    } else {
        decimal(n / 10).push(digit_char(n % 10))
    }
}

/// `n` in decimal, with a leading zero where it has a single digit.
pub open spec fn two_digits(n: nat) -> Seq<char> {
    if n < 10 {
        seq!['0', digit_char(n)]
    } else {
        decimal(n)
    }
}

/// The display text for a count of `seconds`: whole minutes, a colon, and the
/// seconds beyond them.
pub open spec fn label_text(seconds: nat) -> Seq<char> {
    two_digits(seconds / 60) + seq![':'] + two_digits(seconds % 60)
}

/// The number that a digit character writes.
pub open spec fn digit_value(c: char) -> int {
    c as int - '0' as int
}

/// The number that a string of digits writes in decimal, most significant
/// digit first.
pub open spec fn decimal_value(digits: Seq<char>) -> int
    decreases digits.len(),
{
    if digits.len() == 0 {
        0
    } else {
        10 * decimal_value(digits.drop_last()) + digit_value(digits.last())
    }
}

/// The digits written for `n` read back as `n`.
pub proof fn lemma_decimal_value(n: nat)
    ensures
        decimal(n).len() >= 1,
        decimal_value(decimal(n)) == n,
    decreases n,
{
    if n < 10 {
        assert(decimal(n).drop_last() =~= Seq::<char>::empty());
        assert(decimal_value(Seq::<char>::empty()) == 0);
    } else {
        lemma_decimal_value(n / 10);
        assert(decimal(n).drop_last() =~= decimal(n / 10));
    }
}

/// A padded number reads back as itself, and below a hundred it is exactly
/// its tens digit and its units digit.
pub proof fn lemma_two_digits(n: nat)
    ensures
        two_digits(n).len() >= 2,
        decimal_value(two_digits(n)) == n,
        n < 100 ==> two_digits(n) == seq![digit_char(n / 10), digit_char(n % 10)],
{
    lemma_decimal_value(n);
    if n < 10 {
        lemma_decimal_value(0);
        assert(two_digits(n).drop_last() =~= decimal(0));
    } else if n < 100 {
        assert(decimal(n / 10) =~= seq![digit_char(n / 10)]);
        assert(decimal(n) =~= seq![digit_char(n / 10), digit_char(n % 10)]);
    } else {
        lemma_decimal_value(n / 10);
    }
}

/// Below a hundred minutes the display text has the five characters `MM:SS`:
/// the tens and units of the minutes, a colon, the tens and units of the
/// seconds.
pub proof fn lemma_label_shape(seconds: nat)
    requires
        seconds < 6000,
    ensures
        label_text(seconds) == seq![
            digit_char(seconds / 60 / 10),
            digit_char(seconds / 60 % 10),
            ':',
            digit_char(seconds % 60 / 10),
            digit_char(seconds % 60 % 10),
        ],
        label_text(seconds).len() == 5,
{
    lemma_two_digits(seconds / 60);
    lemma_two_digits(seconds % 60);
    assert(label_text(seconds) =~= seq![
        digit_char(seconds / 60 / 10),
        digit_char(seconds / 60 % 10),
        ':',
        digit_char(seconds % 60 / 10),
        digit_char(seconds % 60 % 10),
    ]);
}

/// The one-character string that writes the digit `d`.
fn digit_str(d: usize) -> (s: &'static str)
    requires
        d < 10,
    ensures
        s@ == seq![digit_char(d as nat)],
{
    proof {
        reveal_strlit("0");
        reveal_strlit("1");
        reveal_strlit("2");
        reveal_strlit("3");
        reveal_strlit("4");
        reveal_strlit("5");
        reveal_strlit("6");
        reveal_strlit("7");
        reveal_strlit("8");
        reveal_strlit("9");
    }
    match d {
        0 => "0",
        1 => "1",
        2 => "2",
        3 => "3",
        4 => "4",
        5 => "5",
        6 => "6",
        7 => "7",
        8 => "8",
        _ => "9",
    }
}

/// Appends `n` in decimal to `out`.
fn push_decimal(out: &mut String, n: usize)
    ensures
        final(out)@ == old(out)@ + decimal(n as nat),
    decreases n,
{
    if n >= 10 {
        push_decimal(out, n / 10);
    }
    out.append(digit_str(n % 10));
}

/// Appends `n` in decimal to `out`, with a leading zero where it has a single
/// digit.
fn push_two_digits(out: &mut String, n: usize)
    ensures
        final(out)@ == old(out)@ + two_digits(n as nat),
{
    if n < 10 {
        out.append(digit_str(0));
    }
    push_decimal(out, n);
}

/// Formats a count of seconds for the display, as in `25:00` for 1500: the
/// whole minutes, a colon, and the remaining seconds, each zero-padded to two
/// digits.
pub fn format_label(seconds: usize) -> (label: String)
    ensures
        label@ == label_text(seconds as nat),
{
    let mut label = String::new();
    push_two_digits(&mut label, seconds / 60);
    label.append(":");
    push_two_digits(&mut label, seconds % 60);
    proof {
        reveal_strlit(":");
    }
    label
}

} // verus!
