//! Decimal rendering of integers, for the exit-code indicator.

use vstd::prelude::*;

verus! {

/// The character for one decimal digit value.
pub open spec fn digit_char(d: int) -> char {
    if d == 0 {
        '0'
    } else if d == 1 {
        '1'
    } else if d == 2 {
        '2'
    } else if d == 3 {
        '3'
    } else if d == 4 {
        '4'
    } else if d == 5 {
        '5'
    } else if d == 6 {
        '6'
    } else if d == 7 {
        '7'
    } else if d == 8 {
        '8'
    } else {
        '9'
    }
}

/// The decimal representation of a natural number, without leading
/// zeros (a single `'0'` for zero itself).
pub open spec fn dec_rep(n: nat) -> Seq<char>
    decreases n,
{
    if n < 10 {
        seq![digit_char(n as int)]
    } else {
        dec_rep(n / 10) + seq![digit_char((n % 10) as int)]
    }
}

/// The decimal representation of an integer: a `'-'` sign before the
/// magnitude for a negative value, the bare magnitude otherwise.
pub open spec fn dec_rep_int(c: int) -> Seq<char> {
    if c >= 0 {
        dec_rep(c as nat)
    } else {
        seq!['-'] + dec_rep((-c) as nat)
    }
}

/// A one-character string slice for one decimal digit value.
fn digit_str(d: u32) -> (r: &'static str)
    requires
        d < 10,
    ensures
        r@ == seq![digit_char(d as int)],
{
    proof {
        reveal_strlit("0");
        reveal_strlit("1");
        reveal_strlit("2");
        reveal_strlit("3");
        reveal_strlit("4");
        reveal_strlit("5");
        reveal_strlit("6");
        reveal_strlit("7");
        reveal_strlit("8");
        reveal_strlit("9");
    }
    let r = if d == 0 {
        "0"
    } else if d == 1 {
        "1"
    } else if d == 2 {
        "2"
    } else if d == 3 {
        "3"
    } else if d == 4 {
        "4"
    } else if d == 5 {
        "5"
    } else if d == 6 {
        "6"
    } else if d == 7 {
        "7"
    } else if d == 8 {
        "8"
    } else {
        "9"
    };
    proof {
        assert(r@ =~= seq![digit_char(d as int)]);
    }
    r
}

/// Appends the decimal representation of `n` to `buf`.
pub fn append_dec_u32(buf: &mut String, n: u32)
    ensures
        final(buf)@ == old(buf)@ + dec_rep(n as nat),
    decreases n,
{
    if n >= 10 {
        append_dec_u32(buf, n / 10);
    }
    buf.append(digit_str(n % 10));
    proof {
        if n < 10 {
            assert(n % 10 == n) by (nonlinear_arith)
                requires n < 10;
            assert(final(buf)@ =~= old(buf)@ + dec_rep(n as nat));
        } else {
            assert(final(buf)@ =~= old(buf)@ + dec_rep(n as nat));
        }
    }
}

/// Appends the decimal representation of `c`, sign included, to `buf`.
pub fn append_dec_i32(buf: &mut String, c: i32)
    ensures
        final(buf)@ == old(buf)@ + dec_rep_int(c as int),
{
    if c >= 0 {
        append_dec_u32(buf, c as u32);
    } else {
        let mag64: i64 = -(c as i64);
        let mag: u32 = mag64 as u32;
        buf.append("-");
        proof {
            reveal_strlit("-");
            assert("-"@ =~= seq!['-']);
        }
        append_dec_u32(buf, mag);
        proof {
            assert(final(buf)@ =~= old(buf)@ + dec_rep_int(c as int));
        }
    }
}

} // verus!
