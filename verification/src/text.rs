//! Characters and strings: what the standard library's `String::push` does,
//! and the upper-case hexadecimal rendering of an integer.

use vstd::prelude::*;

verus! {

/// `String::push` appends the character to the end of the string.
pub assume_specification[ String::push ](s: &mut String, c: char)
    ensures
        final(s)@ == old(s)@.push(c),
;

/// The upper-case hexadecimal digit for a value below 16.
pub open spec fn hex_digit(d: nat) -> char {
    if d < 10 {
        (48 + d) as char
    } else {
        (55 + d) as char
    }
}

/// The hexadecimal digits of `n`, most significant first, with no digit at
/// all for 0.
pub open spec fn hex_digits(n: nat) -> Seq<char>
    decreases n,
{
    if n == 0 {
        Seq::empty()
    } else {
        hex_digits(n / 16).push(hex_digit(n % 16))
    }
}

/// The upper-case hexadecimal rendering of `n`, without prefix or padding.
pub open spec fn upper_hex(n: nat) -> Seq<char> {
    if n == 0 {
        seq!['0']
    } else {
        hex_digits(n)
    }
}

/// The value of an upper-case hexadecimal digit.
pub open spec fn hex_digit_value(c: char) -> nat {
    if c as nat <= 57 {
        (c as nat - 48) as nat
    } else {
        (c as nat - 55) as nat
    }
}

/// The number that a sequence of upper-case hexadecimal digits denotes.
pub open spec fn hex_value(digits: Seq<char>) -> nat
    decreases digits.len(),
{
    if digits.len() == 0 {
        0
    } else {
        hex_value(digits.drop_last()) * 16 + hex_digit_value(digits.last())
    }
}

/// Reading back the digits of a number gives the number.
pub proof fn lemma_hex_digits_value(n: nat)
    ensures
        hex_value(hex_digits(n)) == n,
    decreases n,
{
    if n != 0 {
        let digits = hex_digits(n);
        let d = n % 16;
        lemma_hex_digits_value(n / 16);
        assert(digits.drop_last() =~= hex_digits(n / 16));
        assert(digits.last() == hex_digit(d));
        assert(hex_digit_value(hex_digit(d)) == d);
    }
}

/// Two numbers with the same hexadecimal rendering are equal.
pub proof fn lemma_upper_hex_injective(a: nat, b: nat)
    requires
        upper_hex(a) == upper_hex(b),
    ensures
        a == b,
{
    lemma_hex_digits_value(a);
    lemma_hex_digits_value(b);
    let zero = seq!['0'];
    assert(hex_value(zero) == 0) by {
        assert(zero.drop_last() =~= Seq::<char>::empty());
        assert(hex_value(zero.drop_last()) == 0);
    }
}

/// The character of one hexadecimal digit.
fn hex_digit_char(d: u8) -> (c: char)
    requires
        d < 16,
    ensures
        c == hex_digit(d as nat),
{
    if d < 10 {
        (48 + d) as char
    } else {
        (55 + d) as char
    }
}

/// Renders `n` in upper-case hexadecimal.
pub fn to_upper_hex(n: u64) -> (text: String)
    ensures
        text@ == upper_hex(n as nat),
{
    let mut text = String::new();
    if n == 0 {
        text.push('0');
        assert(text@ =~= seq!['0']);
        return text;
    }
    let mut low_first: Vec<char> = Vec::new();
    let mut rest: u64 = n;
    while rest > 0
        invariant
            hex_digits(n as nat) == hex_digits(rest as nat) + low_first@.reverse(),
        decreases rest,
    {
        let d: u8 = (rest % 16) as u8;
        let c = hex_digit_char(d);
        proof {
            let before = low_first@;
            let after = before.push(c);
            assert(after.reverse() =~= seq![c] + before.reverse());
            assert(hex_digits(rest as nat) == hex_digits((rest / 16) as nat).push(c));
            assert(hex_digits((rest / 16) as nat).push(c) + before.reverse() =~= hex_digits(
                (rest / 16) as nat,
            ) + after.reverse());
        }
        low_first.push(c);
        rest = rest / 16;
    }
    assert(hex_digits(n as nat) =~= low_first@.reverse());
    let mut i: usize = low_first.len();
    while i > 0
        invariant
            i <= low_first.len(),
            text@ == low_first@.reverse().take(low_first.len() - i),
        decreases i,
    {
        i = i - 1;
        text.push(low_first[i]);
        assert(text@ =~= low_first@.reverse().take(low_first.len() - i));
    }
    assert(text@ =~= low_first@.reverse());
    text
}

} // verus!
