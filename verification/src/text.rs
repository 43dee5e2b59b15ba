//! Text building: comparing, numbering and quoting, as the messages the user
//! reads need it.

use vstd::prelude::*;

verus! {

/// The decimal digit of `d`.
pub open spec fn digit_char(d: nat) -> char {
    (48 + d) as char
}

/// The decimal numeral of `n`, without leading zeros.
pub open spec fn decimal_text(n: nat) -> Seq<char>
    decreases n,
{
    if n < 10 {
        seq![digit_char(n)]
    } else {
        decimal_text(n / 10).push(digit_char(n % 10))
    }
}

/// The upper-case hexadecimal digit of `d`.
pub open spec fn hex_char(d: nat) -> char {
    if d < 10 {
        (48 + d) as char
    } else {
        (55 + d) as char
    }
}

/// The upper-case hexadecimal numeral of `n`, without leading zeros.
pub open spec fn hex_digits(n: nat) -> Seq<char>
    decreases n,
{
    if n < 16 {
        seq![hex_char(n)]
    } else {
        hex_digits(n / 16).push(hex_char(n % 16))
    }
}

/// `0x` and at least two hexadecimal digits.
pub open spec fn hex_text(n: nat) -> Seq<char> {
    "0x"@ + if n < 16 {
        seq!['0', hex_char(n)]
    } else {
        hex_digits(n)
    }
}

/// What the standard library's `Debug` renders of a string: the characters in
/// double quotes, with escapes.
pub uninterp spec fn quoted_text(s: Seq<char>) -> Seq<char>;

/// What the standard library's `Debug` renders of a `Duration` of so many seconds
/// and nanoseconds, such as `5s` or `100ms`.
pub uninterp spec fn duration_text(secs: u64, nanos: u32) -> Seq<char>;

/// Calls `<str as Debug>::fmt` through `format!`. Trusted: the result depends
/// on the characters of `s` alone, and is named [`quoted_text`].
#[verifier::external_body]
pub(crate) fn quoted(s: &str) -> (r: String)
    ensures
        r@ == quoted_text(s@),
{
    format!("{:?}", s)
}

/// Calls `<Duration as Debug>::fmt` through `format!`, on the duration that
/// `Duration::new` makes, which panics only where the nanoseconds make seconds.
/// Trusted: the result depends on the two numbers alone, and is named
/// [`duration_text`].
#[verifier::external_body]
pub(crate) fn duration_debug(secs: u64, nanos: u32) -> (r: String)
    requires
        nanos < 1_000_000_000,
    ensures
        r@ == duration_text(secs, nanos),
{
    format!("{:?}", core::time::Duration::new(secs, nanos))
}

/// Whether two strings hold the same characters.
pub fn text_eq(a: &str, b: &str) -> (r: bool)
    ensures
        r == (a@ == b@),
{
    a.to_owned() == b.to_owned()
}

/// The one-character string of a decimal or hexadecimal digit.
fn digit(d: u64) -> (r: &'static str)
    requires
        d < 16,
    ensures
        r@ == seq![hex_char(d as nat)],
{
    let digits: &'static str = "0123456789ABCDEF";
    proof {
        reveal_strlit("0123456789ABCDEF");
        assert(d == 0 || d == 1 || d == 2 || d == 3 || d == 4 || d == 5 || d == 6 || d == 7
            || d == 8 || d == 9 || d == 10 || d == 11 || d == 12 || d == 13 || d == 14 || d == 15);
    }
    let r: &'static str = digits.substring_ascii(d as usize, d as usize + 1);
    assert(r@ =~= seq![hex_char(d as nat)]);
    r
}

/// The decimal numeral of `n`.
pub fn decimal(n: u64) -> (r: String)
    ensures
        r@ == decimal_text(n as nat),
    decreases n,
{
    if n < 10 {
        digit(n).to_owned()
    } else {
        let mut s = decimal(n / 10);
        s.append(digit(n % 10));
        assert(s@ =~= decimal_text(n as nat));
        s
    }
}

/// The hexadecimal digits of `n`, without leading zeros.
fn hex_tail(n: u64) -> (r: String)
    ensures
        r@ == hex_digits(n as nat),
    decreases n,
{
    if n < 16 {
        digit(n).to_owned()
    } else {
        let mut s = hex_tail(n / 16);
        s.append(digit(n % 16));
        assert(s@ =~= hex_digits(n as nat));
        s
    }
}

/// `n` in hexadecimal, `0x` in front, at least two digits.
pub fn hex(n: u16) -> (r: String)
    ensures
        r@ == hex_text(n as nat),
{
    let mut s = "0x".to_owned();
    if n < 16 {
        s.append("0");
        proof {
            reveal_strlit("0");
        }
    }
    s.append(hex_tail(n as u64).as_str());
    assert(s@ =~= hex_text(n as nat));
    s
}

/// A decimal numeral ends with the last digit of the number and begins with the
/// numeral of the rest. A number below ten is its digit.
pub proof fn decimal_digits_are_the_numbers_own(tens: nat, d: nat)
    requires
        d < 10,
    ensures
        decimal_text(d) == seq!["0123456789"@[d as int]],
        tens > 0 ==> decimal_text(10 * tens + d) == decimal_text(tens).push(
            "0123456789"@[d as int],
        ),
{
    reveal_strlit("0123456789");
    assert(d == 0 || d == 1 || d == 2 || d == 3 || d == 4 || d == 5 || d == 6 || d == 7 || d == 8
        || d == 9);
    assert((10 * tens + d) / 10 == tens);
    assert((10 * tens + d) % 10 == d);
}

/// A hexadecimal numeral is `0x` and the digits, in upper case: two of them below
/// `0x100`, and otherwise as many as the number has, each for four bits.
pub proof fn hex_digits_are_the_numbers_own(high: nat, d: nat)
    requires
        d < 16,
    ensures
        hex_text(d) == seq!['0', 'x', '0', "0123456789ABCDEF"@[d as int]],
        0 < high < 16 ==> hex_text(16 * high + d) == seq![
            '0',
            'x',
            "0123456789ABCDEF"@[high as int],
            "0123456789ABCDEF"@[d as int],
        ],
        16 <= high ==> hex_text(16 * high + d) == hex_text(high).push("0123456789ABCDEF"@[d as int]),
{
    reveal_strlit("0x");
    reveal_strlit("0123456789ABCDEF");
    each_hex_digit_is_in_its_place(d);
    assert((16 * high + d) / 16 == high);
    assert((16 * high + d) % 16 == d);
    assert(hex_text(d) =~= seq!['0', 'x', '0', hex_char(d)]);
    if 0 < high < 16 {
        each_hex_digit_is_in_its_place(high);
        assert(hex_digits(high) =~= seq![hex_char(high)]);
        assert(hex_text(16 * high + d) =~= seq!['0', 'x', hex_char(high), hex_char(d)]);
    }
    if 16 <= high {
        assert(hex_text(16 * high + d) =~= hex_text(high).push(hex_char(d)));
    }
}

proof fn each_hex_digit_is_in_its_place(d: nat)
    requires
        d < 16,
    ensures
        hex_char(d) == "0123456789ABCDEF"@[d as int],
{
    reveal_strlit("0123456789ABCDEF");
    assert(d == 0 || d == 1 || d == 2 || d == 3 || d == 4 || d == 5 || d == 6 || d == 7 || d == 8
        || d == 9 || d == 10 || d == 11 || d == 12 || d == 13 || d == 14 || d == 15);
}

} // verus!
