//! Building text: numbers in decimal, and templates with holes.

use vstd::prelude::*;
use vstd::string::StringExecFns;

verus! {

/// The character of a decimal digit.
pub open spec fn digit_char(digit: int) -> char {
    if digit == 0 {
        '0'
    } else if digit == 1 {
        '1'
    } else if digit == 2 {
        '2'
    } else if digit == 3 {
        '3'
    } else if digit == 4 {
        '4'
    } else if digit == 5 {
        '5'
    } else if digit == 6 {
        '6'
    } else if digit == 7 {
        '7'
    } else if digit == 8 {
        '8'
    } else {
        '9'
    }
}

/// The decimal digits of a natural number, without leading zeros.
pub open spec fn digits(n: nat) -> Seq<char>
    decreases n,
{
    if n < 10 {
        seq![digit_char(n as int)]
    } else {
        digits(n / 10).push(digit_char((n % 10) as int))
    }
}

/// An integer in decimal, with a minus sign where it is negative.
pub open spec fn decimal(n: int) -> Seq<char> {
    if n < 0 {
        seq!['-'] + digits((-n) as nat)
    } else {
        digits(n as nat)
    }
}

/// `before`, `a`, `after` in a row.
pub open spec fn fill1(before: Seq<char>, a: Seq<char>, after: Seq<char>) -> Seq<char> {
    before + a + after
}

/// `before`, `a`, `between`, `b`, `after` in a row.
pub open spec fn fill2(
    before: Seq<char>,
    a: Seq<char>,
    between: Seq<char>,
    b: Seq<char>,
    after: Seq<char>,
) -> Seq<char> {
    before + a + between + b + after
}

/// `before`, `a`, `first`, `b`, `second`, `c`, `after` in a row.
pub open spec fn fill3(
    before: Seq<char>,
    a: Seq<char>,
    first: Seq<char>,
    b: Seq<char>,
    second: Seq<char>,
    c: Seq<char>,
    after: Seq<char>,
) -> Seq<char> {
    before + a + first + b + second + c + after
}

/// `before`, `a`, `first`, `b`, `second`, `c`, `third`, `d`, `after` in a row.
pub open spec fn fill4(
    before: Seq<char>,
    a: Seq<char>,
    first: Seq<char>,
    b: Seq<char>,
    second: Seq<char>,
    c: Seq<char>,
    third: Seq<char>,
    d: Seq<char>,
    after: Seq<char>,
) -> Seq<char> {
    before + a + first + b + second + c + third + d + after
}

/// The text of one decimal digit.
fn digit_text(digit: u64) -> (text: &'static str)
    requires
        digit < 10,
    ensures
        text@ == seq![digit_char(digit as int)],
{
    proof {
        reveal_strlit("0");
        reveal_strlit("1");
        reveal_strlit("2");
        reveal_strlit("3");
        reveal_strlit("4");
        reveal_strlit("5");
        reveal_strlit("6");
        reveal_strlit("7");
        reveal_strlit("8");
        reveal_strlit("9");
    }
    let text = if digit == 0 {
        "0"
    } else if digit == 1 {
        "1"
    } else if digit == 2 {
        "2"
    } else if digit == 3 {
        "3"
    } else if digit == 4 {
        "4"
    } else if digit == 5 {
        "5"
    } else if digit == 6 {
        "6"
    } else if digit == 7 {
        "7"
    } else if digit == 8 {
        "8"
    } else {
        "9"
    };
    assert(text@ =~= seq![digit_char(digit as int)]);
    text
}

/// Appends the decimal digits of `n`.
pub fn push_digits(out: &mut String, n: u64)
    ensures
        final(out)@ == old(out)@ + digits(n as nat),
    decreases n,
{
    if n >= 10 {
        push_digits(out, n / 10);
    }
    out.append(digit_text(n % 10));
    assert(out@ =~= old(out)@ + digits(n as nat));
}

/// An integer in decimal.
pub fn decimal_string(n: i64) -> (text: String)
    ensures
        text@ == decimal(n as int),
{
    let mut text = String::new();
    if n < 0 {
        proof {
            reveal_strlit("-");
        }
        text.append("-");
        let magnitude: u64 = (-(n + 1)) as u64 + 1;
        push_digits(&mut text, magnitude);
        assert(text@ =~= decimal(n as int));
    } else {
        push_digits(&mut text, n as u64);
        assert(text@ =~= decimal(n as int));
    }
    text
}

/// The text `before`, `a`, `after` in a row.
pub fn fill1_string(before: &str, a: &str, after: &str) -> (text: String)
    ensures
        text@ == fill1(before@, a@, after@),
{
    let mut text = String::from_str(before);
    text.append(a);
    text.append(after);
    text
}

/// The text `before`, `a`, `between`, `b`, `after` in a row.
pub fn fill2_string(before: &str, a: &str, between: &str, b: &str, after: &str) -> (text: String)
    ensures
        text@ == fill2(before@, a@, between@, b@, after@),
{
    let mut text = String::from_str(before);
    text.append(a);
    text.append(between);
    text.append(b);
    text.append(after);
    text
}

/// The text `before`, `a`, `first`, `b`, `second`, `c`, `after` in a row.
pub fn fill3_string(
    before: &str,
    a: &str,
    first: &str,
    b: &str,
    second: &str,
    c: &str,
    after: &str,
) -> (text: String)
    ensures
        text@ == fill3(before@, a@, first@, b@, second@, c@, after@),
{
    let mut text = String::from_str(before);
    text.append(a);
    text.append(first);
    text.append(b);
    text.append(second);
    text.append(c);
    text.append(after);
    text
}

/// The text `before`, `a`, `first`, `b`, `second`, `c`, `third`, `d`, `after`
/// in a row.
pub fn fill4_string(
    before: &str,
    a: &str,
    first: &str,
    b: &str,
    second: &str,
    c: &str,
    third: &str,
    d: &str,
    after: &str,
) -> (text: String)
    ensures
        text@ == fill4(before@, a@, first@, b@, second@, c@, third@, d@, after@),
{
    let mut text = String::from_str(before);
    text.append(a);
    text.append(first);
    text.append(b);
    text.append(second);
    text.append(c);
    text.append(third);
    text.append(d);
    text.append(after);
    text
}

} // verus!
