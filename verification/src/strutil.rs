//! Verified building of the small strings the library needs: decimal and
//! hexadecimal numerals and zero-padded fields.

use vstd::prelude::*;
use vstd::string::StringExecFns;

use crate::progress::digits_val;

verus! {

/// The character for one decimal digit value.
pub open spec fn digit_char(d: int) -> char {
    if d == 0 { '0' }
    else if d == 1 { '1' }
    else if d == 2 { '2' }
    else if d == 3 { '3' }
    else if d == 4 { '4' }
    else if d == 5 { '5' }
    else if d == 6 { '6' }
    else if d == 7 { '7' }
    else if d == 8 { '8' }
    else { '9' }
}

/// The character for one hexadecimal digit value, upper case.
pub open spec fn hex_char(d: int) -> char {
    if d < 10 { digit_char(d) }
    else if d == 10 { 'A' }
    else if d == 11 { 'B' }
    else if d == 12 { 'C' }
    else if d == 13 { 'D' }
    else if d == 14 { 'E' }
    else { 'F' }
}

/// The decimal numeral of `n`, most significant digit first.
pub open spec fn dec_rep(n: int) -> Seq<char>
    decreases n,
        when n >= 0
{
    if n < 10 {
        seq![digit_char(n)]
    } else {
        dec_rep(n / 10).push(digit_char(n % 10))
    }
}

/// The decimal numeral of `n`, left-padded with `0` to two characters.
pub open spec fn dec_rep2(n: int) -> Seq<char> {
    if n < 10 {
        seq!['0'].add(dec_rep(n))
    } else {
        dec_rep(n)
    }
}

/// The upper-case hexadecimal numeral of `n`, most significant digit first.
pub open spec fn hex_rep(n: int) -> Seq<char>
    decreases n,
        when n >= 0
{
    if n < 16 {
        seq![hex_char(n)]
    } else {
        hex_rep(n / 16).push(hex_char(n % 16))
    }
}

/// The hexadecimal numeral of `n`, left-padded with `0` to two characters.
pub open spec fn hex_rep2(n: int) -> Seq<char> {
    if n < 16 {
        seq!['0'].add(hex_rep(n))
    } else {
        hex_rep(n)
    }
}

/// The decimal numeral reads back as the number it was made from: the
/// numeral of `n` is faithful.
pub proof fn lemma_dec_rep_value(n: int)
    requires
        n >= 0,
    ensures
        digits_val(dec_rep(n)) == n,
        dec_rep(n).len() >= 1,
    decreases n,
{
    if n < 10 {
        let d = dec_rep(n);
        assert(d =~= seq![digit_char(n)]);
        assert(d.drop_last() =~= Seq::<char>::empty());
        assert(digits_val(d.drop_last()) == 0);
        assert(d.last() == digit_char(n));
        assert(digit_val_of_digit_char(n) == n);
    } else {
        lemma_dec_rep_value(n / 10);
        let d = dec_rep(n);
        assert(d.drop_last() =~= dec_rep(n / 10));
        assert(d.last() == digit_char(n % 10));
        assert(digits_val(d)
            == digits_val(dec_rep(n / 10)) * 10 + digit_val_of_digit_char(n % 10));
    }
}

/// `digit_val` of `digit_char` gives the digit back.
pub open spec fn digit_val_of_digit_char(d: int) -> int {
    crate::progress::digit_val(digit_char(d))
}

/// One decimal digit as a string slice.
fn digit_str(d: u64) -> (r: &'static str)
    requires
        d < 10,
    ensures
        r@ =~= seq![digit_char(d as int)],
{
    proof {
        reveal_strlit("0");
        reveal_strlit("1");
        reveal_strlit("2");
        reveal_strlit("3");
        reveal_strlit("4");
        reveal_strlit("5");
        reveal_strlit("6");
        reveal_strlit("7");
        reveal_strlit("8");
        reveal_strlit("9");
    }
    match d {
        0 => "0",
        1 => "1",
        2 => "2",
        3 => "3",
        4 => "4",
        5 => "5",
        6 => "6",
        7 => "7",
        8 => "8",
        _ => "9",
    }
}

/// One hexadecimal digit as a string slice.
fn hex_digit_str(d: u32) -> (r: &'static str)
    requires
        d < 16,
    ensures
        r@ =~= seq![hex_char(d as int)],
{
    proof {
        reveal_strlit("A");
        reveal_strlit("B");
        reveal_strlit("C");
        reveal_strlit("D");
        reveal_strlit("E");
        reveal_strlit("F");
    }
    if d < 10 {
        digit_str(d as u64)
    } else {
        match d {
            10 => "A",
            11 => "B",
            12 => "C",
            13 => "D",
            14 => "E",
            _ => "F",
        }
    }
}

/// The decimal numeral of `n` as a string.
pub fn u64_to_string(n: u64) -> (r: String)
    ensures
        r@ == dec_rep(n as int),
    decreases n,
{
    if n < 10 {
        let s = digit_str(n).to_owned();
        assert(s@ =~= dec_rep(n as int));
        s
    } else {
        let mut s = u64_to_string(n / 10);
        s.append(digit_str(n % 10));
        assert(s@ =~= dec_rep(n as int));
        s
    }
}

/// The decimal numeral of `n`, left-padded with `0` to two characters.
pub fn u64_to_string2(n: u64) -> (r: String)
    ensures
        r@ == dec_rep2(n as int),
{
    if n < 10 {
        proof {
            reveal_strlit("0");
        }
        let mut s = "0".to_owned();
        s.append(digit_str(n));
        assert(s@ =~= dec_rep2(n as int));
        s
    } else {
        u64_to_string(n)
    }
}

/// The upper-case hexadecimal numeral of `n`, at least two characters wide.
pub fn u32_to_hex2(n: u32) -> (r: String)
    ensures
        r@ == hex_rep2(n as int),
{
    if n < 16 {
        proof {
            reveal_strlit("0");
        }
        let mut s = "0".to_owned();
        s.append(hex_digit_str(n));
        assert(s@ =~= hex_rep2(n as int));
        s
    } else {
        let s = u32_to_hex(n);
        s
    }
}

fn u32_to_hex(n: u32) -> (r: String)
    ensures
        r@ == hex_rep(n as int),
    decreases n,
{
    if n < 16 {
        let s = hex_digit_str(n).to_owned();
        assert(s@ =~= hex_rep(n as int));
        s
    } else {
        let mut s = u32_to_hex(n / 16);
        s.append(hex_digit_str(n % 16));
        assert(s@ =~= hex_rep(n as int));
        s
    }
}

} // verus!
