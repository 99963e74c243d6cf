//! Small verified text helpers: decimal digits, decimal rendering of
//! integers, and string comparison.

use vstd::prelude::*;

verus! {

/// The character for one decimal digit value.
pub open spec fn digit_char(d: int) -> char {
    if d == 0 {
        '0'
    } else if d == 1 {
        '1'
    } else if d == 2 {
        '2'
    } else if d == 3 {
        '3'
    } else if d == 4 {
        '4'
    } else if d == 5 {
        '5'
    } else if d == 6 {
        '6'
    } else if d == 7 {
        '7'
    } else if d == 8 {
        '8'
    } else {
        '9'
    }
}

/// The decimal digit value of a character, or 10 when it is not a digit.
pub open spec fn digit_val(c: char) -> int {
    if c == '0' {
        0
    } else if c == '1' {
        1
    } else if c == '2' {
        2
    } else if c == '3' {
        3
    } else if c == '4' {
        4
    } else if c == '5' {
        5
    } else if c == '6' {
        6
    } else if c == '7' {
        7
    } else if c == '8' {
        8
    } else if c == '9' {
        9
    } else {
        10
    }
}

pub proof fn lemma_digit_char_val(d: int)
    requires
        0 <= d < 10,
    ensures
        digit_val(digit_char(d)) == d,
{
}

pub(crate) fn digit_str(d: u8) -> (r: &'static str)
    requires
        d < 10,
    ensures
        r@ =~= seq![digit_char(d as int)],
{
    proof {
        reveal_strlit("0");
        reveal_strlit("1");
        reveal_strlit("2");
        reveal_strlit("3");
        reveal_strlit("4");
        reveal_strlit("5");
        reveal_strlit("6");
        reveal_strlit("7");
        reveal_strlit("8");
        reveal_strlit("9");
    }
    match d {
        0 => "0",
        1 => "1",
        2 => "2",
        3 => "3",
        4 => "4",
        5 => "5",
        6 => "6",
        7 => "7",
        8 => "8",
        _ => "9",
    }
}

/// The decimal digit sequence of a non-negative integer, most significant
/// digit first, without leading zeros (but "0" for zero).
pub open spec fn dec_digits(n: nat) -> Seq<char>
    decreases n,
{
    if n < 10 {
        seq![digit_char(n as int)]
    } else {
        dec_digits(n / 10).push(digit_char((n % 10) as int))
    }
}

/// The decimal rendering of an integer, with a leading minus sign when
/// negative.
pub open spec fn dec_chars(n: int) -> Seq<char> {
    if n < 0 {
        seq!['-'] + dec_digits((-n) as nat)
    } else {
        dec_digits(n as nat)
    }
}

fn u64_to_dec(n: u64) -> (r: String)
    ensures
        r@ == dec_digits(n as nat),
    decreases n,
{
    if n < 10 {
        let s = String::from_str(digit_str(n as u8));
        proof {
            assert(s@ =~= dec_digits(n as nat));
        }
        s
    } else {
        let mut s = u64_to_dec(n / 10);
        s.append(digit_str((n % 10) as u8));
        proof {
            assert(s@ =~= dec_digits(n as nat));
        }
        s
    }
}

/// Renders an integer in decimal, as the standard formatter does.
pub fn i64_to_dec(n: i64) -> (r: String)
    ensures
        r@ == dec_chars(n as int),
{
    if n >= 0 {
        u64_to_dec(n as u64)
    } else {
        let mag: u64 = if n == i64::MIN {
            9223372036854775808u64
        } else {
            (-n) as u64
        };
        let mut s = String::from_str("-");
        proof {
            reveal_strlit("-");
        }
        s.append(u64_to_dec(mag).as_str());
        proof {
            assert(s@ =~= dec_chars(n as int));
        }
        s
    }
}

/// Compares two string slices character by character.
pub fn str_eq(a: &str, b: &str) -> (r: bool)
    ensures
        r == (a@ == b@),
{
    let alen = a.unicode_len();
    let blen = b.unicode_len();
    if alen != blen {
        proof {
            assert(a@ != b@) by {
                if a@ == b@ {
                    assert(a@.len() == b@.len());
                }
            }
        }
        return false;
    }
    let mut i: usize = 0;
    while i < alen
        invariant
            alen == a@.len(),
            blen == b@.len(),
            alen == blen,
            0 <= i <= alen,
            forall|j: int| 0 <= j < i ==> a@[j] == b@[j],
        decreases alen - i,
    {
        if a.get_char(i) != b.get_char(i) {
            proof {
                assert(a@ != b@) by {
                    if a@ == b@ {
                        assert(a@[i as int] == b@[i as int]);
                    }
                }
            }
            return false;
        }
        i = i + 1;
    }
    proof {
        assert(a@ =~= b@);
    }
    true
}

} // verus!
