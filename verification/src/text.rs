use vstd::prelude::*;

verus! {

/// The character of a hexadecimal digit (lower case).
pub open spec fn hex_char(d: nat) -> char {
    if d == 0 { '0' } else if d == 1 { '1' } else if d == 2 { '2' } else if d == 3 { '3' }
    else if d == 4 { '4' } else if d == 5 { '5' } else if d == 6 { '6' } else if d == 7 { '7' }
    else if d == 8 { '8' } else if d == 9 { '9' } else if d == 10 { 'a' } else if d == 11 { 'b' }
    else if d == 12 { 'c' } else if d == 13 { 'd' } else if d == 14 { 'e' } else { 'f' }
}

/// The text of one digit below 16.
pub fn digit_str(d: u8) -> (s: &'static str)
    requires
        d < 16,
    ensures
        s@ == seq![hex_char(d as nat)],
{
    proof {
        reveal_strlit("0");
        reveal_strlit("1");
        reveal_strlit("2");
        reveal_strlit("3");
        reveal_strlit("4");
        reveal_strlit("5");
        reveal_strlit("6");
        reveal_strlit("7");
        reveal_strlit("8");
        reveal_strlit("9");
        reveal_strlit("a");
        reveal_strlit("b");
        reveal_strlit("c");
        reveal_strlit("d");
        reveal_strlit("e");
        reveal_strlit("f");
    }
    match d {
        0 => "0",
        1 => "1",
        2 => "2",
        3 => "3",
        4 => "4",
        5 => "5",
        6 => "6",
        7 => "7",
        8 => "8",
        9 => "9",
        10 => "a",
        11 => "b",
        12 => "c",
        13 => "d",
        14 => "e",
        _ => "f",
    }
}

/// The digits of `n` in base `base` (2 to 16), most significant first, without padding.
pub open spec fn digits(n: nat, base: nat) -> Seq<char>
    decreases n,
{
    if base < 2 || n < base {
        seq![hex_char(n % 16)]
    } else {
        proof {
            vstd::arithmetic::div_mod::lemma_div_decreases(n as int, base as int);
        }
        digits(n / base, base).push(hex_char(n % base))
    }
}

/// `s` with `c` in front until it is at least `width` long.
pub open spec fn pad_left(s: Seq<char>, c: char, width: nat) -> Seq<char>
    decreases width,
{
    if s.len() >= width {
        s
    } else {
        seq![c] + pad_left(s, c, (width - 1) as nat)
    }
}

/// Padding puts `width - s.len()` copies of `c` in front of `s`.
pub proof fn lemma_pad_left(s: Seq<char>, c: char, width: nat)
    ensures
        pad_left(s, c, width) == Seq::new(
            if s.len() >= width { 0 } else { (width - s.len()) as nat },
            |i: int| c,
        ) + s,
    decreases width,
{
    if s.len() >= width {
        assert(Seq::new(0, |i: int| c) + s =~= s);
    } else {
        lemma_pad_left(s, c, (width - 1) as nat);
        let k = (width - s.len()) as nat;
        assert(seq![c] + (Seq::new((k - 1) as nat, |i: int| c) + s) =~= Seq::new(k, |i: int| c) + s);
    }
}

/// The number of digits of `n` in base `base`.
pub fn digit_count(n: u64, base: u64) -> (len: u64)
    requires
        2 <= base <= 16,
    ensures
        len == digits(n as nat, base as nat).len(),
        1 <= len <= n as int + 1,
    decreases n,
{
    if n < base {
        1
    } else {
        proof {
            vstd::arithmetic::div_mod::lemma_div_decreases(n as int, base as int);
        }
        proof {
            vstd::arithmetic::div_mod::lemma_div_is_ordered_by_denominator(n as int, 2, base as int);
        }
        let l = digit_count(n / base, base);
        l + 1
    }
}

/// Appends `n` in base `base`, with zeros in front to at least `width` digits.
pub fn append_padded(out: &mut String, n: u64, base: u64, width: u64)
    requires
        2 <= base <= 16,
    ensures
        final(out)@ == old(out)@ + pad_left(digits(n as nat, base as nat), '0', width as nat),
{
    let len = digit_count(n, base);
    let ghost start = out@;
    let mut k: u64 = len;
    while k < width
        invariant
            len <= k,
            k <= width || k == len,
            out@ == start + Seq::new((k - len) as nat, |i: int| '0'),
        decreases width - k,
    {
        out.append("0");
        proof {
            reveal_strlit("0");
            assert(start + Seq::new((k + 1 - len) as nat, |i: int| '0') =~= start + Seq::new((k - len) as nat, |i: int| '0') + "0"@);
        }
        k = k + 1;
    }
    let ghost before = out@;
    append_digits(out, n, base);
    proof {
        lemma_pad_left(digits(n as nat, base as nat), '0', width as nat);
        assert(out@ =~= old(out)@ + pad_left(digits(n as nat, base as nat), '0', width as nat));
    }
}

/// Appends the digits of `n` in base `base` to `out`.
pub fn append_digits(out: &mut String, n: u64, base: u64)
    requires
        2 <= base <= 16,
    ensures
        final(out)@ == old(out)@ + digits(n as nat, base as nat),
    decreases n,
{
    if n < base {
        let s = digit_str(n as u8);
        out.append(s);
    } else {
        proof {
            vstd::arithmetic::div_mod::lemma_div_decreases(n as int, base as int);
        }
        append_digits(out, n / base, base);
        let s = digit_str((n % base) as u8);
        out.append(s);
    }
}

/// The decimal text of `n`.
pub fn decimal(n: u64) -> (s: String)
    ensures
        s@ == digits(n as nat, 10),
{
    let mut s = String::new();
    append_digits(&mut s, n, 10);
    s
}

} // verus!
