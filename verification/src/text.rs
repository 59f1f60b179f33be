//! Decimal rendering of integers into strings, with an exact
//! character-level specification.

use vstd::prelude::*;
use vstd::string::StringExecFns;

verus! {

/// The decimal digit character for a value between 0 and 9.
pub open spec fn dec_digit_char(d: int) -> char {
    if d == 0 {
        '0'
    } else if d == 1 {
        '1'
    } else if d == 2 {
        '2'
    } else if d == 3 {
        '3'
    } else if d == 4 {
        '4'
    } else if d == 5 {
        '5'
    } else if d == 6 {
        '6'
    } else if d == 7 {
        '7'
    } else if d == 8 {
        '8'
    } else {
        '9'
    }
}

/// The usual decimal numeral of a non-negative integer: no leading
/// zeros, except that zero itself is written "0".
pub open spec fn dec_of_uint(n: int) -> Seq<char>
    recommends
        n >= 0,
    decreases n,
{
    if n < 10 {
        seq![dec_digit_char(n)]
    } else {
        dec_of_uint(n / 10).push(dec_digit_char(n % 10))
    }
}

/// The decimal numeral of an integer: a leading '-' for negatives.
pub open spec fn dec_of_int(n: int) -> Seq<char> {
    if n < 0 {
        seq!['-'] + dec_of_uint(-n)
    } else {
        dec_of_uint(n)
    }
}

/// The one-character string for a decimal digit value.
pub(crate) fn dec_digit_str(d: u32) -> (s: &'static str)
    requires
        d < 10,
    ensures
        s@ =~= seq![dec_digit_char(d as int)],
{
    if d == 0 {
        proof { reveal_strlit("0"); }
        "0"
    } else if d == 1 {
        proof { reveal_strlit("1"); }
        "1"
    } else if d == 2 {
        proof { reveal_strlit("2"); }
        "2"
    } else if d == 3 {
        proof { reveal_strlit("3"); }
        "3"
    } else if d == 4 {
        proof { reveal_strlit("4"); }
        "4"
    } else if d == 5 {
        proof { reveal_strlit("5"); }
        "5"
    } else if d == 6 {
        proof { reveal_strlit("6"); }
        "6"
    } else if d == 7 {
        proof { reveal_strlit("7"); }
        "7"
    } else if d == 8 {
        proof { reveal_strlit("8"); }
        "8"
    } else {
        proof { reveal_strlit("9"); }
        "9"
    }
}

/// Appends the decimal numeral of `n` to `out`.
pub fn append_dec_u32(n: u32, out: &mut String)
    ensures
        final(out)@ == old(out)@ + dec_of_uint(n as int),
    decreases n,
{
    if n < 10 {
        out.append(dec_digit_str(n));
    } else {
        append_dec_u32(n / 10, out);
        out.append(dec_digit_str(n % 10));
        proof {
            assert(out@ =~= old(out)@ + dec_of_uint(n as int));
        }
    }
}

/// Appends the decimal numeral of `n` to `out`, with a sign for
/// negative values.
pub fn append_dec_i32(n: i32, out: &mut String)
    ensures
        final(out)@ == old(out)@ + dec_of_int(n as int),
{
    if n >= 0 {
        append_dec_u32(n as u32, out);
    } else {
        proof { reveal_strlit("-"); }
        out.append("-");
        let m: u32 = ((-(n as i64)) as u64) as u32;
        append_dec_u32(m, out);
        proof {
            assert(out@ =~= old(out)@ + dec_of_int(n as int));
        }
    }
}

/// The decimal numeral of `n` as a string.
pub fn dec_string_i32(n: i32) -> (s: String)
    ensures
        s@ == dec_of_int(n as int),
{
    let mut out = String::new();
    append_dec_i32(n, &mut out);
    proof {
        assert(out@ =~= dec_of_int(n as int));
    }
    out
}

} // verus!
