//! Laws of numbers as text: what is appended reads back as the number.

use vstd::prelude::*;

use crate::text::{
    dec, dec_signed, digit_char, hex, hex_padded, push_dec, push_dec_signed, push_hex,
    push_hex_padded,
};

verus! {

/// The value of a digit, or -1.
pub open spec fn digit_value(c: char) -> int {
    if '0' <= c <= '9' {
        c as int - 48
    } else if 'a' <= c <= 'f' {
        c as int - 87
    } else {
        -1
    }
}

/// The number that digits stand for in a base, most significant digit first.
pub open spec fn number(digits: Seq<char>, base: int) -> int
    decreases digits.len(),
{
    if digits.len() == 0 {
        0
    } else {
        number(digits.drop_last(), base) * base + digit_value(digits.last())
    }
}

/// Digits of the base and nothing else.
pub open spec fn all_digits(digits: Seq<char>, base: int) -> bool {
    forall|i: int| 0 <= i < digits.len() ==> 0 <= digit_value(#[trigger] digits[i]) < base
}

/// `digits` is the numeral of `n` in the base, without leading zeros.
pub open spec fn numeral_of(digits: Seq<char>, base: int, n: int) -> bool {
    &&& digits.len() > 0
    &&& all_digits(digits, base)
    &&& number(digits, base) == n
    &&& digits.len() > 1 ==> digits[0] != '0'
}

proof fn lemma_digit(d: int)
    requires
        0 <= d < 16,
    ensures
        digit_value(digit_char(d)) == d,
        digit_char(d) == '0' <==> d == 0,
{
}

/// The decimal text of a number is its numeral.
pub proof fn dec_is_the_numeral(n: nat)
    ensures
        numeral_of(dec(n), 10, n as int),
    decreases n,
{
    lemma_digit((n % 10) as int);
    if n < 10 {
        assert(dec(n).drop_last() =~= Seq::empty());
        assert(number(Seq::<char>::empty(), 10) == 0);
        assert(dec(n).last() == digit_char(n as int));
    } else {
        dec_is_the_numeral(n / 10);
        let head = dec(n / 10);
        assert(dec(n).drop_last() =~= head);
        assert(dec(n)[0] == head[0]);
        assert(dec(n).last() == digit_char((n % 10) as int));
        if head.len() == 1 {
            assert(head.drop_last() =~= Seq::empty());
            assert(number(head.drop_last(), 10) == 0);
            assert(number(head, 10) == digit_value(head[0]));
        }
        assert forall|i: int| 0 <= i < dec(n).len() implies 0 <= digit_value(
            #[trigger] dec(n)[i],
        ) < 10 by {
            if i < head.len() {
                assert(dec(n)[i] == head[i]);
            }
        }
    }
}

/// The hexadecimal text of a number is its numeral.
pub proof fn hex_is_the_numeral(n: nat)
    ensures
        numeral_of(hex(n), 16, n as int),
    decreases n,
{
    lemma_digit((n % 16) as int);
    if n < 16 {
        assert(hex(n).drop_last() =~= Seq::empty());
        assert(number(Seq::<char>::empty(), 16) == 0);
        assert(hex(n).last() == digit_char(n as int));
    } else {
        hex_is_the_numeral(n / 16);
        let head = hex(n / 16);
        assert(hex(n).drop_last() =~= head);
        assert(hex(n)[0] == head[0]);
        assert(hex(n).last() == digit_char((n % 16) as int));
        if head.len() == 1 {
            assert(head.drop_last() =~= Seq::empty());
            assert(number(head.drop_last(), 16) == 0);
            assert(number(head, 16) == digit_value(head[0]));
        }
        assert forall|i: int| 0 <= i < hex(n).len() implies 0 <= digit_value(
            #[trigger] hex(n)[i],
        ) < 16 by {
            if i < head.len() {
                assert(hex(n)[i] == head[i]);
            }
        }
    }
}

/// The padded hexadecimal text has the width asked for, and stands for the number where
/// it fits and for the number modulo the power of sixteen where it does not.
pub proof fn hex_padded_is_the_number(n: nat, width: nat)
    ensures
        hex_padded(n, width).len() == width,
        all_digits(hex_padded(n, width), 16),
        number(hex_padded(n, width), 16) == n as int % vstd::arithmetic::power::pow(16, width),
    decreases width,
{
    let m = vstd::arithmetic::power::pow(16, width);
    vstd::arithmetic::power::lemma_pow_positive(16, width);
    if width == 0 {
        vstd::arithmetic::power::lemma_pow0(16);
        assert(n as int % 1 == 0);
    } else {
        let w = (width - 1) as nat;
        hex_padded_is_the_number(n / 16, w);
        lemma_digit((n % 16) as int);
        let head = hex_padded(n / 16, w);
        let t = hex_padded(n, width);
        assert(t.drop_last() =~= head);
        assert(t.last() == digit_char((n % 16) as int));
        assert forall|i: int| 0 <= i < t.len() implies 0 <= digit_value(#[trigger] t[i]) < 16 by {
            if i < head.len() {
                assert(t[i] == head[i]);
            }
        }
        let p = vstd::arithmetic::power::pow(16, w);
        vstd::arithmetic::power::lemma_pow_positive(16, w);
        reveal(vstd::arithmetic::power::pow);
        assert(m == 16 * p);
        vstd::arithmetic::div_mod::lemma_breakdown(n as int, 16, p);
        assert(n as int % (16 * p) == 16 * ((n as int / 16) % p) + n as int % 16);
    }
}

/// Appending a number in decimal keeps what was there and adds the number's numeral.
pub proof fn appended_decimal_reads_back(out: &mut String, n: u64)
    requires
        call_ensures(push_dec, (out, n), ()),
    ensures
        final(out)@.len() >= old(out)@.len(),
        final(out)@.take(old(out)@.len() as int) == old(out)@,
        numeral_of(final(out)@.skip(old(out)@.len() as int), 10, n as int),
{
    let k = old(out)@.len() as int;
    dec_is_the_numeral(n as nat);
    assert(final(out)@ == old(out)@ + dec(n as nat));
    assert(final(out)@.take(k) =~= old(out)@);
    assert(final(out)@.skip(k) =~= dec(n as nat));
}

/// Appending a signed number in decimal adds a minus sign where it is negative, and the
/// numeral of its magnitude.
pub proof fn appended_signed_decimal_reads_back(out: &mut String, i: i32)
    requires
        call_ensures(push_dec_signed, (out, i), ()),
    ensures
        final(out)@.len() > old(out)@.len(),
        final(out)@.take(old(out)@.len() as int) == old(out)@,
        i >= 0 ==> numeral_of(final(out)@.skip(old(out)@.len() as int), 10, i as int),
        i < 0 ==> final(out)@[old(out)@.len() as int] == '-' && numeral_of(
            final(out)@.skip(old(out)@.len() as int + 1),
            10,
            -i,
        ),
{
    let k = old(out)@.len() as int;
    assert(final(out)@ == old(out)@ + dec_signed(i as int));
    assert(final(out)@.take(k) =~= old(out)@);
    reveal_strlit("-");
    if i < 0 {
        dec_is_the_numeral((-i) as nat);
        assert(final(out)@.skip(k + 1) =~= dec((-i) as nat));
    } else {
        dec_is_the_numeral(i as nat);
        assert(final(out)@.skip(k) =~= dec(i as nat));
    }
}

/// Appending a number in hexadecimal keeps what was there and adds the number's numeral.
pub proof fn appended_hexadecimal_reads_back(out: &mut String, n: u32)
    requires
        call_ensures(push_hex, (out, n), ()),
    ensures
        final(out)@.len() >= old(out)@.len(),
        final(out)@.take(old(out)@.len() as int) == old(out)@,
        numeral_of(final(out)@.skip(old(out)@.len() as int), 16, n as int),
{
    let k = old(out)@.len() as int;
    hex_is_the_numeral(n as nat);
    assert(final(out)@ == old(out)@ + hex(n as nat));
    assert(final(out)@.take(k) =~= old(out)@);
    assert(final(out)@.skip(k) =~= hex(n as nat));
}

/// Appending padded hexadecimal adds exactly `width` digits, which stand for the number
/// modulo the power of sixteen.
pub proof fn appended_padded_hexadecimal_reads_back(out: &mut String, n: u32, width: u8)
    requires
        call_ensures(push_hex_padded, (out, n, width), ()),
    ensures
        final(out)@.len() == old(out)@.len() + width,
        final(out)@.take(old(out)@.len() as int) == old(out)@,
        all_digits(final(out)@.skip(old(out)@.len() as int), 16),
        number(final(out)@.skip(old(out)@.len() as int), 16) == n as int
            % vstd::arithmetic::power::pow(16, width as nat),
{
    let k = old(out)@.len() as int;
    hex_padded_is_the_number(n as nat, width as nat);
    assert(final(out)@ == old(out)@ + hex_padded(n as nat, width as nat));
    assert(final(out)@.take(k) =~= old(out)@);
    assert(final(out)@.skip(k) =~= hex_padded(n as nat, width as nat));
}

} // verus!
