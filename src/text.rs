use vstd::prelude::*;
use vstd::string::StrSliceExecFns;

verus! {

/// Whether `c` is one of the ASCII digits `0` to `9`.
pub open spec fn is_digit(c: char) -> bool {
    '0' <= c && c <= '9'
}

/// The numeric value of an ASCII digit.
pub open spec fn digit_value(c: char) -> int {
    (c as u32) as int - ('0' as u32) as int
}

/// The ASCII digit that writes `d`, for `d < 10`.
pub open spec fn digit_char(d: int) -> char {
    ((d + 48) as u8) as char
}

/// `n` written with exactly two decimal digits, for `n < 100`.
pub open spec fn two_digits(n: int) -> Seq<char> {
    seq![digit_char(n / 10), digit_char(n % 10)]
}

/// `n` written with exactly four decimal digits, for `n < 10000`.
pub open spec fn four_digits(n: int) -> Seq<char> {
    two_digits(n / 100) + two_digits(n % 100)
}

/// The value of the two digits of `s` that start at `i`.
pub open spec fn value2(s: Seq<char>, i: int) -> int {
    10 * digit_value(s[i]) + digit_value(s[i + 1])
}

/// The value of the four digits of `s` that start at `i`.
pub open spec fn value4(s: Seq<char>, i: int) -> int {
    100 * value2(s, i) + value2(s, i + 2)
}

/// A digit written and read back is the same digit.
pub proof fn lemma_digit_round_trip(d: int)
    requires
        0 <= d < 10,
    ensures
        is_digit(digit_char(d)),
        digit_value(digit_char(d)) == d,
{
}

/// A number below 100 written with two digits and read back is the same number.
pub proof fn lemma_two_digits_value(n: int)
    requires
        0 <= n < 100,
    ensures
        value2(two_digits(n), 0) == n,
        is_digit(two_digits(n)[0]),
        is_digit(two_digits(n)[1]),
{
    lemma_digit_round_trip(n / 10);
    lemma_digit_round_trip(n % 10);
}

/// Two digits read as a number and written back are the same two digits.
pub proof fn lemma_value2_digits(s: Seq<char>, i: int)
    requires
        0 <= i,
        i + 1 < s.len(),
        is_digit(s[i]),
        is_digit(s[i + 1]),
    ensures
        0 <= value2(s, i) < 100,
        two_digits(value2(s, i)) == s.subrange(i, i + 2),
{
    let v = value2(s, i);
    assert(v / 10 == digit_value(s[i]));
    assert(v % 10 == digit_value(s[i + 1]));
    assert(digit_char(digit_value(s[i])) == s[i]);
    assert(digit_char(digit_value(s[i + 1])) == s[i + 1]);
    assert(two_digits(v) =~= s.subrange(i, i + 2));
}

/// Relies on `String::push`: the character is appended at the end.
#[verifier::external_body]
pub fn push_char(s: &mut String, c: char)
    ensures
        final(s)@ == old(s)@.push(c),
{
    s.push(c)
}

/// The ASCII digit that writes `d`.
pub fn digit_to_char(d: u8) -> (c: char)
    requires
        d < 10,
    ensures
        c == digit_char(d as int),
{
    (d + 48) as char
}

/// Appends `n` written with exactly two digits.
pub fn push_two_digits(s: &mut String, n: u8)
    requires
        n < 100,
    ensures
        final(s)@ == old(s)@ + two_digits(n as int),
{
    push_char(s, digit_to_char(n / 10));
    push_char(s, digit_to_char(n % 10));
    assert(final(s)@ =~= old(s)@ + two_digits(n as int));
}

/// Appends `n` written with exactly four digits.
pub fn push_four_digits(s: &mut String, n: u16)
    requires
        n < 10000,
    ensures
        final(s)@ == old(s)@ + four_digits(n as int),
{
    push_two_digits(s, (n / 100) as u8);
    push_two_digits(s, (n % 100) as u8);
    assert(final(s)@ =~= old(s)@ + four_digits(n as int));
}

/// The value of the digit at character position `i` of `s`, if it is one.
pub fn digit_at(s: &str, i: usize) -> (r: Option<u8>)
    requires
        i < s@.len(),
    ensures
        r is Some <==> is_digit(s@[i as int]),
        r is Some ==> r->Some_0 as int == digit_value(s@[i as int]) && r->Some_0 < 10,
{
    let c = s.get_char(i);
    if '0' <= c && c <= '9' {
        Some((c as u32 - '0' as u32) as u8)
    } else {
        None
    }
}

} // verus!
