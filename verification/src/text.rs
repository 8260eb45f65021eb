//! Building the texts of error messages.

use vstd::prelude::*;

verus! {

/// `String::push_str`: appends `more` to `text`.
#[verifier::external_body]
pub(crate) fn push_str(text: &mut String, more: &str)
    ensures
        final(text)@ == old(text)@ + more@,
{
    text.push_str(more)
}

/// `String::push`: appends one character to `text`.
#[verifier::external_body]
pub(crate) fn push_char(text: &mut String, c: char)
    ensures
        final(text)@ == old(text)@.push(c),
{
    text.push(c)
}

/// The character of a decimal digit.
pub open spec fn digit_char(d: nat) -> char {
    if d == 0 {
        '0'
    } else if d == 1 {
        '1'
    } else if d == 2 {
        '2'
    } else if d == 3 {
        '3'
    } else if d == 4 {
        '4'
    } else if d == 5 {
        '5'
    } else if d == 6 {
        '6'
    } else if d == 7 {
        '7'
    } else if d == 8 {
        '8'
    } else {
        '9'
    }
}

/// The decimal digits of `n`, most significant first, without leading zeros.
pub open spec fn decimal(n: nat) -> Seq<char>
    decreases n,
{
    if n < 10 {
        seq![digit_char(n)]
    } else {
        decimal(n / 10).push(digit_char(n % 10))
    }
}

/// The two texts one after the other.
pub open spec fn joined(head: Seq<char>, tail: Seq<char>) -> Seq<char> {
    head + tail
}

/// The character of a decimal digit.
pub fn digit(d: u8) -> (c: char)
    requires
        d < 10,
    ensures
        c == digit_char(d as nat),
{
    if d == 0 {
        '0'
    } else if d == 1 {
        '1'
    } else if d == 2 {
        '2'
    } else if d == 3 {
        '3'
    } else if d == 4 {
        '4'
    } else if d == 5 {
        '5'
    } else if d == 6 {
        '6'
    } else if d == 7 {
        '7'
    } else if d == 8 {
        '8'
    } else {
        '9'
    }
}

/// Writes a number of eight bits in decimal.
pub fn decimal_text(n: u8) -> (text: String)
    ensures
        text@ == decimal(n as nat),
{
    let mut text = String::new();
    if n >= 100 {
        push_char(&mut text, digit(n / 100));
        assert(decimal((n / 100) as nat) == seq![digit_char((n / 100) as nat)]);
    }
    if n >= 10 {
        push_char(&mut text, digit((n / 10) % 10));
        proof {
            if n >= 100 {
                assert((n / 10) as nat / 10 == (n / 100) as nat);
                assert(decimal((n / 10) as nat) == decimal((n / 100) as nat).push(
                    digit_char(((n / 10) % 10) as nat),
                ));
            } else {
                assert(text@ =~= seq![digit_char((n / 10) as nat)]);
            }
            assert(text@ =~= decimal((n / 10) as nat));
        }
    }
    push_char(&mut text, digit(n % 10));
    proof {
        if n < 10 {
            assert(text@ =~= seq![digit_char(n as nat)]);
        }
    }
    text
}

/// Joins a fixed text and a text built at run time.
pub fn join(head: &str, tail: &str) -> (text: String)
    ensures
        text@ == joined(head@, tail@),
{
    let mut text = head.to_owned();
    push_str(&mut text, tail);
    text
}

} // verus!
