//! Text for error messages and identifiers.

use vstd::prelude::*;

verus! {

/// Append one character: `String::push`.
///
/// Claimed: the string afterwards is the string before followed by `c`.
#[verifier::external_body]
pub(crate) fn push_char(s: &mut String, c: char)
    ensures
        final(s)@ == old(s)@.push(c),
{
    s.push(c)
}

/// Whether two strings are the same: `==` on `str`.
///
/// Claimed: the answer is whether they have the same characters.
#[verifier::external_body]
pub(crate) fn same_text(a: &str, b: &str) -> (r: bool)
    ensures
        r == (a@ == b@),
{
    a == b
}

/// Append a string slice.
pub(crate) fn push_text(s: &mut String, t: &str)
    ensures
        final(s)@ == old(s)@ + t@,
{
    s.append(t);
}

/// The lower-case hexadecimal digit for `d`.
pub open spec fn lower_digit(d: int) -> char {
    if d < 10 {
        (48 + d) as char
    } else {
        (87 + d) as char
    }
}

/// The upper-case hexadecimal digit for `d`.
pub open spec fn upper_digit(d: int) -> char {
    if d < 10 {
        (48 + d) as char
    } else {
        (55 + d) as char
    }
}

/// `x` in lower-case hexadecimal, without leading zeros.
pub open spec fn hex(x: nat) -> Seq<char>
    decreases x,
{
    if x < 16 {
        seq![lower_digit(x as int)]
    } else {
        hex(x / 16).push(lower_digit((x % 16) as int))
    }
}

/// A byte as two upper-case hexadecimal digits.
pub open spec fn hex_byte(b: u8) -> Seq<char> {
    seq![upper_digit((b / 16) as int), upper_digit((b % 16) as int)]
}

fn lower_digit_char(d: u8) -> (c: char)
    requires
        d < 16,
    ensures
        c == lower_digit(d as int),
{
    if d < 10 {
        (48 + d) as char
    } else {
        (87 + d) as char
    }
}

fn upper_digit_char(d: u8) -> (c: char)
    requires
        d < 16,
    ensures
        c == upper_digit(d as int),
{
    if d < 10 {
        (48 + d) as char
    } else {
        (55 + d) as char
    }
}

/// Append `x` in lower-case hexadecimal, without leading zeros.
pub fn push_hex(s: &mut String, x: u16)
    ensures
        final(s)@ == old(s)@ + hex(x as nat),
    decreases x,
{
    if x >= 16 {
        push_hex(s, x / 16);
    }
    push_char(s, lower_digit_char((x % 16) as u8));
    assert(s@ =~= old(s)@ + hex(x as nat));
}

/// Append a byte as two upper-case hexadecimal digits.
pub fn push_hex_byte(s: &mut String, b: u8)
    ensures
        final(s)@ == old(s)@ + hex_byte(b),
{
    push_char(s, upper_digit_char(b / 16));
    push_char(s, upper_digit_char(b % 16));
    assert(s@ =~= old(s)@ + hex_byte(b));
}

// ── What the digits mean ────────────────────────────────────────────────

/// The value of a hexadecimal digit, of either case.
pub open spec fn digit_value(c: char) -> int {
    if '0' <= c <= '9' {
        c as int - '0' as int
    } else if 'a' <= c <= 'f' {
        c as int - 'a' as int + 10
    } else if 'A' <= c <= 'F' {
        c as int - 'A' as int + 10
    } else {
        -1
    }
}

/// The number that a row of hexadecimal digits stands for.
pub open spec fn number(digits: Seq<char>) -> int
    decreases digits.len(),
{
    if digits.len() == 0 {
        0
    } else {
        16 * number(digits.drop_last()) + digit_value(digits.last())
    }
}

/// Every value below sixteen has a digit that stands for it, a lower-case one
/// and an upper-case one.
pub proof fn digits_have_their_value(d: int)
    requires
        0 <= d < 16,
    ensures
        digit_value(lower_digit(d)) == d,
        digit_value(upper_digit(d)) == d,
        !('A' <= lower_digit(d) <= 'F'),
        !('a' <= upper_digit(d) <= 'f'),
{
}

/// A number in hexadecimal stands for itself: it is made of lower-case digits,
/// and does not begin with a zero, unless it is zero.
pub proof fn hex_stands_for_the_number(x: nat)
    ensures
        number(hex(x)) == x,
        hex(x).len() >= 1,
        forall|i: int|
            0 <= i < hex(x).len() ==> {
                &&& 0 <= digit_value(#[trigger] hex(x)[i]) < 16
                &&& !('A' <= hex(x)[i] <= 'F')
            },
        x > 0 ==> hex(x)[0] != '0',
    decreases x,
{
    digits_have_their_value((x % 16) as int);
    if x < 16 {
        assert(hex(x).drop_last() =~= Seq::<char>::empty());
        assert(number(hex(x).drop_last()) == 0);
    } else {
        hex_stands_for_the_number(x / 16);
        assert(hex(x).drop_last() =~= hex(x / 16));
    }
}

/// Different numbers look different.
pub proof fn hex_tells_numbers_apart(x: nat, y: nat)
    requires
        hex(x) == hex(y),
    ensures
        x == y,
{
    hex_stands_for_the_number(x);
    hex_stands_for_the_number(y);
}

/// A byte is two upper-case digits that stand for it, the higher one first.
pub proof fn hex_byte_stands_for_the_byte(b: u8)
    ensures
        hex_byte(b).len() == 2,
        0 <= digit_value(hex_byte(b)[0]) < 16,
        0 <= digit_value(hex_byte(b)[1]) < 16,
        16 * digit_value(hex_byte(b)[0]) + digit_value(hex_byte(b)[1]) == b,
        !('a' <= hex_byte(b)[0] <= 'f') && !('a' <= hex_byte(b)[1] <= 'f'),
{
    digits_have_their_value((b / 16) as int);
    digits_have_their_value((b % 16) as int);
}

/// What is appended to a text is the number or the byte, in digits; what the
/// text said before stays.
pub proof fn digits_are_appended(x: u16, b: u8)
    ensures
        forall|s: &mut String| #[trigger]
            call_ensures(push_hex, (s, x), ()) ==> {
                let n = (*s)@.len() as int;
                &&& (*final(s))@.len() > n
                &&& (*final(s))@.take(n) == (*s)@
                &&& number((*final(s))@.skip(n)) == x
            },
        forall|s: &mut String| #[trigger]
            call_ensures(push_hex_byte, (s, b), ()) ==> {
                let n = (*s)@.len() as int;
                &&& (*final(s))@.len() == n + 2
                &&& (*final(s))@.take(n) == (*s)@
                &&& number((*final(s))@.skip(n)) == b
            },
{
    hex_stands_for_the_number(x as nat);
    hex_byte_stands_for_the_byte(b);
    let two = hex_byte(b);
    assert(two.drop_last().drop_last() =~= Seq::empty());
    reveal_with_fuel(number, 3);
    assert(number(two) == b);
    assert forall|s: &mut String| #[trigger] call_ensures(push_hex, (s, x), ()) implies {
        let n = (*s)@.len() as int;
        &&& (*final(s))@.take(n) == (*s)@
        &&& number((*final(s))@.skip(n)) == x
    } by {
        let n = (*s)@.len() as int;
        assert((*final(s))@.take(n) =~= (*s)@);
        assert((*final(s))@.skip(n) =~= hex(x as nat));
    }
    assert forall|s: &mut String| #[trigger] call_ensures(push_hex_byte, (s, b), ()) implies {
        let n = (*s)@.len() as int;
        &&& (*final(s))@.take(n) == (*s)@
        &&& number((*final(s))@.skip(n)) == b
    } by {
        let n = (*s)@.len() as int;
        assert((*final(s))@.take(n) =~= (*s)@);
        assert((*final(s))@.skip(n) =~= two);
    }
}

/// The digits are the usual sixteen, in small letters and in capitals.
pub proof fn digits_are_the_usual_ones(d: int)
    requires
        0 <= d < 16,
    ensures
        lower_digit(d) == "0123456789abcdef"@[d],
        upper_digit(d) == "0123456789ABCDEF"@[d],
{
    reveal_strlit("0123456789abcdef");
    reveal_strlit("0123456789ABCDEF");
}

} // verus!
