//! Number texts read back as the numbers they were made from.
use vstd::prelude::*;

use crate::text::{digits, pad_left};

verus! {

/// The value of a lower-case hexadecimal (or decimal) digit character.
pub open spec fn char_value(ch: char) -> nat {
    if ch == '1' { 1 } else if ch == '2' { 2 } else if ch == '3' { 3 } else if ch == '4' { 4 }
    else if ch == '5' { 5 } else if ch == '6' { 6 } else if ch == '7' { 7 } else if ch == '8' { 8 }
    else if ch == '9' { 9 } else if ch == 'a' { 10 } else if ch == 'b' { 11 } else if ch == 'c' { 12 }
    else if ch == 'd' { 13 } else if ch == 'e' { 14 } else if ch == 'f' { 15 } else { 0 }
}

/// Whether a character is a digit below `base`: 0-9, then a-f.
pub open spec fn is_digit(ch: char, base: nat) -> bool {
    (ch == '0' || char_value(ch) != 0) && char_value(ch) < base
}

/// The number that a text of digits in `base` denotes, most significant first.
pub open spec fn text_value(s: Seq<char>, base: nat) -> nat
    decreases s.len(),
{
    if s.len() == 0 {
        0
    } else {
        text_value(s.drop_last(), base) * base + char_value(s.last())
    }
}

/// Each digit character reads back as its value.
proof fn lemma_hex_char_value(d: nat)
    requires
        d < 16,
    ensures
        char_value(crate::text::hex_char(d)) == d,
        crate::text::hex_char(d) == '0' || char_value(crate::text::hex_char(d)) != 0,
{
}

/// A leading zero does not change the value.
proof fn lemma_leading_zero(s: Seq<char>, base: nat)
    ensures
        text_value(seq!['0'] + s, base) == text_value(s, base),
    decreases s.len(),
{
    let t = seq!['0'] + s;
    if s.len() > 0 {
        assert(t.drop_last() =~= seq!['0'] + s.drop_last());
        assert(t.last() == s.last());
        lemma_leading_zero(s.drop_last(), base);
        assert(text_value(t, base) == text_value(t.drop_last(), base) * base + char_value(t.last()));
    } else {
        assert(t.drop_last() =~= Seq::<char>::empty());
        assert(text_value(t.drop_last(), base) == 0);
        assert(char_value(t.last()) == 0);
        assert(text_value(t, base) == text_value(t.drop_last(), base) * base + char_value(t.last()));
    }
}

/// Any number of leading zeros does not change the value.
proof fn lemma_leading_zeros(k: nat, s: Seq<char>, base: nat)
    ensures
        text_value(Seq::new(k, |i: int| '0') + s, base) == text_value(s, base),
    decreases k,
{
    if k > 0 {
        assert(Seq::new(k, |i: int| '0') + s =~= seq!['0'] + (Seq::new((k - 1) as nat, |i: int| '0') + s));
        lemma_leading_zero(Seq::new((k - 1) as nat, |i: int| '0') + s, base);
        lemma_leading_zeros((k - 1) as nat, s, base);
    } else {
        assert(Seq::new(0, |i: int| '0') + s =~= s);
    }
}

/// The digits of `n` in a base from 2 to 16 are digits of that base, and
/// read back as `n`; padded on the left with zeros to any width, they still
/// read back as `n`.
pub proof fn law_digits_read_back(n: nat, base: nat, width: nat)
    requires
        2 <= base <= 16,
    ensures
        text_value(digits(n, base), base) == n,
        forall|i: int| 0 <= i < digits(n, base).len() ==> is_digit(#[trigger] digits(n, base)[i], base),
        text_value(pad_left(digits(n, base), '0', width), base) == n,
    decreases n,
{
    if n < base {
        lemma_hex_char_value(n % 16);
        let t = seq![crate::text::hex_char(n % 16)];
        assert(digits(n, base) == t);
        assert(t.drop_last() =~= Seq::<char>::empty());
        assert(text_value(t.drop_last(), base) == 0);
        assert(text_value(t, base) == text_value(t.drop_last(), base) * base + char_value(t.last()));
        assert(n % 16 == n);
        assert(text_value(t, base) == n);
    } else {
        vstd::arithmetic::div_mod::lemma_div_decreases(n as int, base as int);
        lemma_hex_char_value(n % base);
        law_digits_read_back(n / base, base, width);
        let s = digits(n / base, base);
        let t = s.push(crate::text::hex_char(n % base));
        assert(digits(n, base) == t);
        assert(t.drop_last() =~= s);
        assert(text_value(t, base) == text_value(s, base) * base + n % base);
        vstd::arithmetic::div_mod::lemma_fundamental_div_mod(n as int, base as int);
        assert(text_value(s, base) == n / base);
        assert(text_value(t, base) == n) by (nonlinear_arith)
            requires
                text_value(t, base) == text_value(s, base) * base + n % base,
                text_value(s, base) == n / base,
                n == base * (n / base) + n % base,
        ;
        assert forall|i: int| 0 <= i < t.len() implies is_digit(#[trigger] t[i], base) by {
            if i < s.len() {
                assert(t[i] == s[i]);
            }
        }
    }
    crate::text::lemma_pad_left(digits(n, base), '0', width);
    let s = digits(n, base);
    lemma_leading_zeros(if s.len() >= width { 0 } else { (width - s.len()) as nat }, s, base);
}

} // verus!
