//! Building report and failure text: decimal numbers and characters
//! appended to a `String`, with the resulting characters specified.

use vstd::prelude::*;

verus! {

/// The ASCII digit for a value below ten.
pub open spec fn digit_char(d: nat) -> char {
    (d + 48) as char
}

/// Decimal rendering of a natural number, most significant digit first,
/// without leading zeros (`0` renders as `"0"`).
pub open spec fn decimal(n: nat) -> Seq<char>
    decreases n,
{
    if n < 10 {
        seq![digit_char(n)]
    } else {
        decimal(n / 10).push(digit_char(n % 10))
    }
}

/// Appends one character to a string.
///
/// Calls `String::push`, which std documents as appending the given
/// character to the end of the string.
#[verifier::external_body]
pub(crate) fn push_char(s: &mut String, c: char)
    ensures
        final(s)@ == old(s)@.push(c),
{
    s.push(c);
}

/// The character of a decimal digit.
pub fn digit(d: u8) -> (c: char)
    requires
        d < 10,
    ensures
        c == digit_char(d as nat),
{
    (d + 48) as char
}

/// Appends the decimal rendering of `n` to `s`.
pub fn push_decimal(s: &mut String, n: u128)
    ensures
        final(s)@ == old(s)@ + decimal(n as nat),
    decreases n,
{
    if n >= 10 {
        push_decimal(s, n / 10);
    }
    let d: u8 = (n % 10) as u8;
    push_char(s, digit(d));
    assert(final(s)@ =~= old(s)@ + decimal(n as nat));
}

/// Every character of a decimal rendering is an ASCII digit, and there is
/// at least one.
pub proof fn lemma_decimal_is_digits(n: nat)
    ensures
        decimal(n).len() >= 1,
        forall|i: int|
            0 <= i < decimal(n).len() ==> 48 <= (#[trigger] decimal(n)[i] as u32) <= 57,
    decreases n,
{
    if n >= 10 {
        lemma_decimal_is_digits(n / 10);
        let d = decimal(n / 10);
        assert forall|i: int| 0 <= i < decimal(n).len() implies 48 <= (#[trigger] decimal(
            n,
        )[i] as u32) <= 57 by {
            if i < d.len() {
                assert(decimal(n)[i] == d[i]);
            }
        }
    }
}

/// The number that a string of decimal digits stands for, most
/// significant digit first.
pub open spec fn digits_value(s: Seq<char>) -> int
    decreases s.len(),
{
    if s.len() == 0 {
        0
    } else {
        digits_value(s.drop_last()) * 10 + (s.last() as int - 48)
    }
}

/// Reading a decimal rendering back gives the number rendered, and only
/// `0` starts with the digit `0`.
pub proof fn lemma_decimal_reads_back(n: nat)
    ensures
        digits_value(decimal(n)) == n,
        decimal(n)[0] == '0' ==> n == 0,
    decreases n,
{
    let d = n % 10;
    assert(digit_char(d) as int == d + 48);
    if n >= 10 {
        lemma_decimal_reads_back(n / 10);
        assert(decimal(n).drop_last() =~= decimal(n / 10));
        assert(decimal(n).last() == digit_char(d));
        assert(decimal(n)[0] == decimal(n / 10)[0]);
        assert(n == (n / 10) * 10 + d);
        assert(digits_value(decimal(n)) == digits_value(decimal(n / 10)) * 10 + (digit_char(d) as int
            - 48));
    } else {
        let t = decimal(n);
        assert(t.len() == 1 && t[0] == digit_char(n));
        assert(t.drop_last().len() == 0);
        assert(digits_value(t.drop_last()) == 0);
        assert(digits_value(t) == digits_value(t.drop_last()) * 10 + (t.last() as int - 48));
    }
}

} // verus!
