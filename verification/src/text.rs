//! Building strings one piece at a time.

use vstd::prelude::*;
use vstd::string::*;

verus! {

/// `String::push` of std appends one character to the end of the string.
pub assume_specification[ String::push ](string: &mut String, ch: char)
    ensures
        final(string)@ == old(string)@.push(ch),
;

/// The character that stands for a digit of a base up to 16, in lower case.
pub open spec fn digit(d: nat) -> char
    recommends
        d < 16,
{
    seq!['0', '1', '2', '3', '4', '5', '6', '7', '8', '9', 'a', 'b', 'c', 'd', 'e', 'f'][d as int]
}

/// The digits of `n` in the given base, without leading zeros.
pub open spec fn digits(n: nat, base: nat) -> Seq<char>
    decreases n,
{
    if base < 2 || n < base {
        seq![digit(n)]
    } else {
        proof {
            assert(n / base < n) by (nonlinear_arith)
                requires
                    n >= base,
                    base >= 2,
            ;
        }
        digits(n / base, base).push(digit(n % base))
    }
}

/// A number in decimal, with a minus sign in front where it is negative.
pub open spec fn decimal(n: int) -> Seq<char> {
    if n < 0 {
        seq!['-'] + digits((-n) as nat, 10)
    } else {
        digits(n as nat, 10)
    }
}

/// A number in hexadecimal, with its `0x` prefix.
pub open spec fn hexadecimal(n: nat) -> Seq<char> {
    seq!['0', 'x'] + digits(n, 16)
}

fn digit_char(d: u64) -> (ch: char)
    requires
        d < 16,
    ensures
        ch == digit(d as nat),
{
    match d {
        0 => '0',
        1 => '1',
        2 => '2',
        3 => '3',
        4 => '4',
        5 => '5',
        6 => '6',
        7 => '7',
        8 => '8',
        9 => '9',
        10 => 'a',
        11 => 'b',
        12 => 'c',
        13 => 'd',
        14 => 'e',
        _ => 'f',
    }
}

fn push_digits(out: &mut String, n: u64, base: u64)
    requires
        2 <= base <= 16,
    ensures
        final(out)@ == old(out)@ + digits(n as nat, base as nat),
    decreases n,
{
    if n < base {
        out.push(digit_char(n));
        assert(out@ =~= old(out)@ + digits(n as nat, base as nat));
    } else {
        assert(n / base < n) by (nonlinear_arith)
            requires
                n >= base,
                base >= 2,
        ;
        push_digits(out, n / base, base);
        assert(n % base < base) by (nonlinear_arith)
            requires
                base >= 2,
        ;
        out.push(digit_char(n % base));
        assert(out@ =~= old(out)@ + digits(n as nat, base as nat));
    }
}

/// Append a number in decimal.
pub(crate) fn push_decimal(out: &mut String, n: i64)
    ensures
        final(out)@ == old(out)@ + decimal(n as int),
{
    if n < 0 {
        out.push('-');
        let magnitude: u64 = (0i128 - n as i128) as u64;
        push_digits(out, magnitude, 10);
        assert(out@ =~= old(out)@ + decimal(n as int));
    } else {
        push_digits(out, n as u64, 10);
    }
}

/// Append a number in hexadecimal, with its `0x` prefix.
pub(crate) fn push_hexadecimal(out: &mut String, n: u32)
    ensures
        final(out)@ == old(out)@ + hexadecimal(n as nat),
{
    out.push('0');
    out.push('x');
    push_digits(out, n as u64, 16);
    assert(out@ =~= old(out)@ + hexadecimal(n as nat));
}

/// The number that a digit stands for, by its place in the character set.
pub open spec fn digit_value(c: char) -> int {
    if c as int >= 97 {
        c as int - 87
    } else {
        c as int - 48
    }
}

/// The number that digits stand for.
pub open spec fn value_of(chars: Seq<char>, base: int) -> int
    decreases chars.len(),
{
    if chars.len() == 0 {
        0
    } else {
        value_of(chars.drop_last(), base) * base + digit_value(chars.last())
    }
}

/// The digits of a number stand for it, each is one of its base, and there is no zero in front of
/// others.
pub proof fn law_digits_stand_for_the_number(n: nat, base: nat)
    requires
        2 <= base <= 16,
    ensures
        value_of(digits(n, base), base as int) == n,
        forall|i: int|
            0 <= i < digits(n, base).len() ==> {
                let c = #[trigger] digits(n, base)[i];
                &&& 48 <= c as int <= 57 || 97 <= c as int <= 102
                &&& digit_value(c) < base
            },
        digits(n, base).len() > 0,
        n > 0 ==> digits(n, base)[0] != '0',
    decreases n,
{
    if n < base {
        assert(digits(n, base).drop_last() =~= Seq::<char>::empty());
        assert(digits(n, base).last() == digit(n));
        assert(value_of(Seq::<char>::empty(), base as int) * base == 0) by (nonlinear_arith)
            requires
                value_of(Seq::<char>::empty(), base as int) == 0,
        ;
    } else {
        assert(n / base < n && n / base > 0) by (nonlinear_arith)
            requires
                n >= base,
                base >= 2,
        ;
        law_digits_stand_for_the_number(n / base, base);
        let front = digits(n / base, base);
        assert(digits(n, base).drop_last() =~= front);
        vstd::arithmetic::div_mod::lemma_fundamental_div_mod(n as int, base as int);
        assert((n / base) * base + n % base == n) by (nonlinear_arith)
            requires
                n as int == base * (n / base) + n % base,
        ;
        assert(n % base < base) by (nonlinear_arith)
            requires
                base >= 2,
        ;
        assert(digits(n, base)[0] == front[0]);
    }
}

/// A number in decimal reads as that number, with a minus sign exactly where it is negative.
pub proof fn law_decimals_read_as_the_number(n: int)
    ensures
        n >= 0 ==> value_of(decimal(n), 10) == n && decimal(n)[0] != '-',
        n < 0 ==> decimal(n)[0] == '-' && value_of(decimal(n).skip(1), 10) == -n,
{
    if n < 0 {
        law_digits_stand_for_the_number((-n) as nat, 10);
        assert(decimal(n).skip(1) =~= digits((-n) as nat, 10));
    } else {
        law_digits_stand_for_the_number(n as nat, 10);
        let c = digits(n as nat, 10)[0];
        assert(48 <= c as int);
    }
}

/// A number in hexadecimal reads as that number behind its prefix.
pub proof fn law_hexadecimals_read_as_the_number(n: nat)
    ensures
        hexadecimal(n).len() > 2,
        hexadecimal(n)[0] == '0',
        hexadecimal(n)[1] == 'x',
        value_of(hexadecimal(n).skip(2), 16) == n,
{
    law_digits_stand_for_the_number(n, 16);
    assert(hexadecimal(n).skip(2) =~= digits(n, 16));
}

} // verus!
