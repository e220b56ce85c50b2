//! Rendering of numbers as text: decimal, and lower-case hexadecimal with and
//! without zero padding.

use vstd::prelude::*;

verus! {

/// The lower-case hexadecimal digit of value `d` (the decimal digits are the first ten).
pub open spec fn digit_char(d: int) -> char {
    if d == 0 {
        '0'
    } else if d == 1 {
        '1'
    } else if d == 2 {
        '2'
    } else if d == 3 {
        '3'
    } else if d == 4 {
        '4'
    } else if d == 5 {
        '5'
    } else if d == 6 {
        '6'
    } else if d == 7 {
        '7'
    } else if d == 8 {
        '8'
    } else if d == 9 {
        '9'
    } else if d == 10 {
        'a'
    } else if d == 11 {
        'b'
    } else if d == 12 {
        'c'
    } else if d == 13 {
        'd'
    } else if d == 14 {
        'e'
    } else {
        'f'
    }
}

/// `n` in decimal, most significant digit first, without leading zeros.
pub open spec fn dec(n: nat) -> Seq<char>
    decreases n,
{
    if n < 10 {
        seq![digit_char(n as int)]
    } else {
        dec(n / 10).push(digit_char((n % 10) as int))
    }
}

/// `i` in decimal, with a leading minus sign when negative.
pub open spec fn dec_signed(i: int) -> Seq<char> {
    if i < 0 {
        "-"@ + dec((-i) as nat)
    } else {
        dec(i as nat)
    }
}

/// `n` in hexadecimal, most significant digit first, without leading zeros.
pub open spec fn hex(n: nat) -> Seq<char>
    decreases n,
{
    if n < 16 {
        seq![digit_char(n as int)]
    } else {
        hex(n / 16).push(digit_char((n % 16) as int))
    }
}

/// The `width` least significant hexadecimal digits of `n`, zero padded.
pub open spec fn hex_padded(n: nat, width: nat) -> Seq<char>
    decreases width,
{
    if width == 0 {
        Seq::empty()
    } else {
        hex_padded(n / 16, (width - 1) as nat).push(digit_char((n % 16) as int))
    }
}

/// The one-character text of a hexadecimal digit.
fn digit_str(d: u8) -> (r: &'static str)
    requires
        d < 16,
    ensures
        r@ == seq![digit_char(d as int)],
{
    proof {
        reveal_strlit("0");
        reveal_strlit("1");
        reveal_strlit("2");
        reveal_strlit("3");
        reveal_strlit("4");
        reveal_strlit("5");
        reveal_strlit("6");
        reveal_strlit("7");
        reveal_strlit("8");
        reveal_strlit("9");
        reveal_strlit("a");
        reveal_strlit("b");
        reveal_strlit("c");
        reveal_strlit("d");
        reveal_strlit("e");
        reveal_strlit("f");
    }
    match d {
        0 => "0",
        1 => "1",
        2 => "2",
        3 => "3",
        4 => "4",
        5 => "5",
        6 => "6",
        7 => "7",
        8 => "8",
        9 => "9",
        10 => "a",
        11 => "b",
        12 => "c",
        13 => "d",
        14 => "e",
        _ => "f",
    }
}

/// Appends `n` in decimal.
pub fn push_dec(out: &mut String, n: u64)
    ensures
        final(out)@ == old(out)@ + dec(n as nat),
    decreases n,
{
    if n >= 10 {
        push_dec(out, n / 10);
    }
    out.append(digit_str((n % 10) as u8));
}

/// Appends `i` in decimal, with a minus sign when negative.
pub fn push_dec_signed(out: &mut String, i: i32)
    ensures
        final(out)@ == old(out)@ + dec_signed(i as int),
{
    if i < 0 {
        out.append("-");
        push_dec(out, (-(i as i64)) as u64);
    } else {
        push_dec(out, i as u64);
    }
}

/// Appends `n` in hexadecimal without padding.
pub fn push_hex(out: &mut String, n: u32)
    ensures
        final(out)@ == old(out)@ + hex(n as nat),
    decreases n,
{
    if n >= 16 {
        push_hex(out, n / 16);
    }
    out.append(digit_str((n % 16) as u8));
}

/// Appends the `width` least significant hexadecimal digits of `n`.
pub fn push_hex_padded(out: &mut String, n: u32, width: u8)
    ensures
        final(out)@ == old(out)@ + hex_padded(n as nat, width as nat),
    decreases width,
{
    if width > 0 {
        push_hex_padded(out, n / 16, width - 1);
        out.append(digit_str((n % 16) as u8));
    }
}

proof fn lemma_digit_injective(a: int, b: int)
    requires
        0 <= a < 16,
        0 <= b < 16,
        digit_char(a) == digit_char(b),
    ensures
        a == b,
{
}

/// Padded hexadecimal has exactly the asked width.
pub proof fn hex_padded_len(n: nat, width: nat)
    ensures
        hex_padded(n, width).len() == width,
    decreases width,
{
    if width > 0 {
        hex_padded_len(n / 16, (width - 1) as nat);
    }
}

/// Two numbers that fit in `width` hexadecimal digits and have the same padded text are equal.
pub proof fn hex_padded_injective(a: nat, b: nat, width: nat)
    requires
        a < vstd::arithmetic::power::pow(16, width),
        b < vstd::arithmetic::power::pow(16, width),
        hex_padded(a, width) == hex_padded(b, width),
    ensures
        a == b,
    decreases width,
{
    if width == 0 {
        vstd::arithmetic::power::lemma_pow0(16);
    } else {
        let w = (width - 1) as nat;
        reveal(vstd::arithmetic::power::pow);
        assert(vstd::arithmetic::power::pow(16, width) == 16 * vstd::arithmetic::power::pow(16, w));
        let x = hex_padded(a / 16, w);
        let y = hex_padded(b / 16, w);
        hex_padded_len(a / 16, w);
        hex_padded_len(b / 16, w);
        assert(x.push(digit_char((a % 16) as int)).drop_last() =~= x);
        assert(y.push(digit_char((b % 16) as int)).drop_last() =~= y);
        assert(hex_padded(a, width).last() == digit_char((a % 16) as int));
        assert(hex_padded(b, width).last() == digit_char((b % 16) as int));
        lemma_digit_injective((a % 16) as int, (b % 16) as int);
        hex_padded_injective(a / 16, b / 16, w);
    }
}

/// Numbers with the same unpadded hexadecimal text are equal.
pub proof fn hex_injective(a: nat, b: nat)
    requires
        hex(a) == hex(b),
    ensures
        a == b,
    decreases a,
{
    hex_nonempty(a);
    hex_nonempty(b);
    assert(hex(a).last() == digit_char((a % 16) as int));
    assert(hex(b).last() == digit_char((b % 16) as int));
    lemma_digit_injective((a % 16) as int, (b % 16) as int);
    if a >= 16 && b >= 16 {
        assert(hex(a).drop_last() =~= hex(a / 16));
        assert(hex(b).drop_last() =~= hex(b / 16));
        hex_injective(a / 16, b / 16);
    } else if a >= 16 {
        hex_nonempty(a / 16);
        assert(hex(b).len() == 1);
        assert(hex(a).len() >= 2);
    } else if b >= 16 {
        hex_nonempty(b / 16);
        assert(hex(a).len() == 1);
        assert(hex(b).len() >= 2);
    }
}

proof fn hex_nonempty(n: nat)
    ensures
        hex(n).len() >= 1,
{
}

} // verus!
