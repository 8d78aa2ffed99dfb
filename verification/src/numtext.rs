//! Decimal text for unsigned integers: rendering and parsing over
//! character sequences, with the round-trip lemma the document codec
//! builds on.

use vstd::prelude::*;

verus! {

/// Is `c` a decimal digit?
pub open spec fn is_digit(c: char) -> bool {
    48 <= c as u32 <= 57
}

/// The numeric value of a digit character.
pub open spec fn digit_val(c: char) -> int {
    c as u32 - 48
}

/// The digit character for a value 0 to 9.
pub open spec fn digit_char(d: int) -> char {
    if d == 0 {
        '0'
    } else if d == 1 {
        '1'
    } else if d == 2 {
        '2'
    } else if d == 3 {
        '3'
    } else if d == 4 {
        '4'
    } else if d == 5 {
        '5'
    } else if d == 6 {
        '6'
    } else if d == 7 {
        '7'
    } else if d == 8 {
        '8'
    } else {
        '9'
    }
}

/// The decimal rendering of `v`, most significant digit first, without
/// leading zeros (except for the single digit of zero itself).
pub open spec fn dec_digits(v: nat) -> Seq<char>
    decreases v,
{
    if v < 10 {
        seq![digit_char(v as int)]
    } else {
        dec_digits(v / 10) + seq![digit_char((v % 10) as int)]
    }
}

/// Are all characters of `s` decimal digits?
pub open spec fn all_digits(s: Seq<char>) -> bool {
    forall|i: int| 0 <= i < s.len() ==> is_digit(#[trigger] s[i])
}

/// The value denoted by a digit string (most significant first).
pub open spec fn dec_value(s: Seq<char>) -> int
    decreases s.len(),
{
    if s.len() == 0 {
        0
    } else {
        dec_value(s.drop_last()) * 10 + digit_val(s.last())
    }
}

/// A digit character carries the value it was made from.
pub proof fn lemma_digit(d: int)
    requires
        0 <= d <= 9,
    ensures
        digit_val(digit_char(d)) == d,
        is_digit(digit_char(d)),
{
}

/// Rendering then parsing gives the value back: the decimal digits of `v`
/// are a nonempty all-digit string that denotes `v`.
pub proof fn lemma_dec_digits_value(v: nat)
    ensures
        dec_value(dec_digits(v)) == v,
        all_digits(dec_digits(v)),
        dec_digits(v).len() >= 1,
    decreases v,
{
    if v < 10 {
        lemma_digit(v as int);
        assert(dec_digits(v) =~= seq![digit_char(v as int)]);
        assert(dec_digits(v).drop_last() =~= Seq::<char>::empty());
        assert(dec_value(Seq::<char>::empty()) == 0);
        assert(dec_digits(v).last() == digit_char(v as int));
        assert(dec_value(dec_digits(v)) == 0 * 10 + digit_val(digit_char(v as int)));
        assert(dec_value(dec_digits(v)) == v);
    } else {
        lemma_dec_digits_value(v / 10);
        vstd::arithmetic::div_mod::lemma_mod_bound(v as int, 10);
        lemma_digit((v % 10) as int);
        let s = dec_digits(v);
        assert(s.drop_last() =~= dec_digits(v / 10));
        assert(s.last() == digit_char((v % 10) as int));
        assert(dec_value(s) == (v / 10) * 10 + (v % 10));
        vstd::arithmetic::div_mod::lemma_fundamental_div_mod(v as int, 10);
    }
}

/// Appending a digit to a digit string can only grow the denoted value.
pub proof fn lemma_dec_value_grows(s: Seq<char>, i: int, j: int)
    requires
        0 <= i <= j <= s.len(),
    ensures
        dec_value(s.subrange(0, i)) <= dec_value(s.subrange(0, j)) || !all_digits(s.subrange(
            0,
            j,
        )),
    decreases j - i,
{
    if i < j {
        lemma_dec_value_grows(s, i + 1, j);
        let a = s.subrange(0, i);
        let b = s.subrange(0, i + 1);
        assert(b.drop_last() =~= a);
        if all_digits(s.subrange(0, j)) {
            assert(is_digit(s[i]));
            assert(dec_value(b) == dec_value(a) * 10 + digit_val(s[i]));
            assert(dec_value(a) >= 0) by {
                lemma_dec_value_nonneg(a);
            }
            assert(dec_value(a) <= dec_value(a) * 10) by (nonlinear_arith)
                requires
                    dec_value(a) >= 0,
            ;
        }
    }
}

/// A digit string denotes a nonnegative value.
pub proof fn lemma_dec_value_nonneg(s: Seq<char>)
    ensures
        all_digits(s) ==> dec_value(s) >= 0,
    decreases s.len(),
{
    if s.len() > 0 {
        lemma_dec_value_nonneg(s.drop_last());
        if all_digits(s) {
            assert(all_digits(s.drop_last()));
            assert(is_digit(s.last()));
        }
    }
}

/// The digit character of a value 0 to 9, as a one-character string slice.
pub fn digit_str(d: u32) -> (s: &'static str)
    requires
        d <= 9,
    ensures
        s@ =~= seq![digit_char(d as int)],
{
    proof {
        reveal_strlit("0");
        reveal_strlit("1");
        reveal_strlit("2");
        reveal_strlit("3");
        reveal_strlit("4");
        reveal_strlit("5");
        reveal_strlit("6");
        reveal_strlit("7");
        reveal_strlit("8");
        reveal_strlit("9");
    }
    match d {
        0 => "0",
        1 => "1",
        2 => "2",
        3 => "3",
        4 => "4",
        5 => "5",
        6 => "6",
        7 => "7",
        8 => "8",
        _ => "9",
    }
}

/// Renders `v` in decimal.
pub fn u32_string(v: u32) -> (s: String)
    ensures
        s@ == dec_digits(v as nat),
    decreases v,
{
    if v < 10 {
        let mut s = String::new();
        s.append(digit_str(v));
        proof {
            assert(s@ =~= dec_digits(v as nat));
        }
        s
    } else {
        let mut s = u32_string(v / 10);
        s.append(digit_str(v % 10));
        proof {
            assert(s@ =~= dec_digits(v as nat));
        }
        s
    }
}

} // verus!
