//! Parsing of the prior command's exit code from its decimal text form.
//!
//! Accepts what Rust's integer parsing accepts: an optional `+` or `-`
//! sign followed by one or more decimal digits, the value fitting the
//! 32-bit signed range. Anything else is rejected.

use vstd::prelude::*;

verus! {

/// Whether `c` is a decimal digit.
pub open spec fn is_dec_digit(c: char) -> bool {
    48 <= c as int && c as int <= 57
}

/// The numeric value of one decimal digit character.
pub open spec fn digit_val(c: char) -> int {
    c as int - 48
}

/// Whether every character of `s` is a decimal digit.
pub open spec fn all_dec_digits(s: Seq<char>) -> bool {
    forall|i: int| 0 <= i < s.len() ==> is_dec_digit(s[i])
}

/// The value of a digit string read in base ten (zero when empty).
pub open spec fn digits_val(s: Seq<char>) -> int
    decreases s.len(),
{
    if s.len() == 0 {
        0
    } else {
        digits_val(s.drop_last()) * 10 + digit_val(s.last())
    }
}

/// The mathematical value of a signed decimal integer literal:
/// an optional sign, then one or more digits. `None` on any other shape.
pub open spec fn int_literal_val(s: Seq<char>) -> Option<int> {
    if s.len() > 0 && (s[0] == '+' || s[0] == '-') {
        if s.len() > 1 && all_dec_digits(s.skip(1)) {
            if s[0] == '-' {
                Some(-digits_val(s.skip(1)))
            } else {
                Some(digits_val(s.skip(1)))
            }
        } else {
            None
        }
    } else {
        if s.len() > 0 && all_dec_digits(s) {
            Some(digits_val(s))
        } else {
            None
        }
    }
}

/// What parsing `s` as a 32-bit signed integer returns: the literal's
/// value when it exists and fits, `None` otherwise.
pub open spec fn parse_i32_spec(s: Seq<char>) -> Option<i32> {
    match int_literal_val(s) {
        Option::None => Option::<i32>::None,
        Option::Some(v) => if i32::MIN <= v && v <= i32::MAX {
            Option::Some(v as i32)
        } else {
            Option::<i32>::None
        },
    }
}

/// A digit string's value is never negative.
proof fn lemma_digits_val_nonneg(s: Seq<char>)
    requires
        all_dec_digits(s),
    ensures
        digits_val(s) >= 0,
    decreases s.len(),
{
    if s.len() > 0 {
        assert(all_dec_digits(s.drop_last()));
        lemma_digits_val_nonneg(s.drop_last());
    }
}

/// Reading further digits can only grow a digit string's value.
proof fn lemma_digits_prefix_le(s: Seq<char>, i: int)
    requires
        all_dec_digits(s),
        0 <= i <= s.len(),
    ensures
        digits_val(s.take(i)) <= digits_val(s),
    decreases s.len() - i,
{
    if i < s.len() {
        assert(s.take(i + 1).drop_last() =~= s.take(i));
        assert(s.take(i + 1).last() == s[i]);
        assert(all_dec_digits(s.take(i)));
        lemma_digits_val_nonneg(s.take(i));
        lemma_digits_prefix_le(s, i + 1);
    } else {
        assert(s.take(i) =~= s);
    }
}

/// Parses `s` as a 32-bit signed integer, exactly as
/// [`parse_i32_spec`] describes.
pub fn parse_i32(s: &str) -> (r: Option<i32>)
    ensures
        r == parse_i32_spec(s@),
{
    let len = s.unicode_len();
    if len == 0 {
        return None;
    }
    let c0 = s.get_char(0);
    let c0u = c0 as u32;
    let has_sign = c0u == 43 || c0u == 45;
    let neg = c0u == 45;
    let start: usize = if has_sign {
        1
    } else {
        0
    };
    if start == len {
        return None;
    }
    let ghost body = if has_sign {
        s@.skip(1)
    } else {
        s@
    };
    let mut i: usize = start;
    let mut acc: u64 = 0;
    while i < len
        invariant
            start <= i <= len,
            len == s@.len(),
            start == 0 || start == 1,
            has_sign ==> start == 1 && (s@[0] == '+' || s@[0] == '-'),
            !has_sign ==> start == 0 && !(s@[0] == '+' || s@[0] == '-'),
            body == s@.subrange(start as int, len as int),
            all_dec_digits(s@.subrange(start as int, i as int)),
            acc == digits_val(s@.subrange(start as int, i as int)),
            acc <= 0x8000_0000,
        decreases len - i,
    {
        let c = s.get_char(i);
        let u = c as u32;
        if u < 48 || u > 57 {
            proof {
                assert(body[i - start] == s@[i as int]);
                assert(!all_dec_digits(body));
            }
            return None;
        }
        let d = u - 48;
        let ghost pre = s@.subrange(start as int, i as int);
        acc = acc * 10 + d as u64;
        proof {
            let ext = s@.subrange(start as int, i + 1);
            assert(ext.drop_last() =~= pre);
            assert(ext.last() == s@[i as int]);
            assert(digit_val(s@[i as int]) == d as int);
            assert(all_dec_digits(ext));
            assert(digits_val(ext) == acc);
        }
        i += 1;
        if acc > 0x8000_0000 {
            proof {
                if all_dec_digits(body) {
                    lemma_digits_prefix_le(body, i - start);
                    assert(body.take(i - start) =~= s@.subrange(start as int, i as int));
                    assert(digits_val(body) >= acc);
                    assert(digits_val(body) > i32::MAX);
                    assert(-digits_val(body) < i32::MIN);
                    if has_sign {
                        assert(s@.skip(1) == body);
                        assert(s@.len() > 1);
                        assert(int_literal_val(s@) is Some);
                    } else {
                        assert(body == s@);
                        assert(s@.len() > 0);
                        assert(!(s@[0] == '+' || s@[0] == '-'));
                        assert(all_dec_digits(s@));
                        assert(int_literal_val(s@) == Some(digits_val(body)));
                    }
                    assert(int_literal_val(s@) matches Some(v) && (v > i32::MAX || v < i32::MIN));
                    assert(parse_i32_spec(s@) is None);
                } else {
                    assert(int_literal_val(s@) is None);
                }
            }
            return None;
        }
    }
    proof {
        assert(s@.subrange(start as int, len as int) =~= body);
    }
    if neg {
        let v64: i64 = -(acc as i64);
        Some(v64 as i32)
    } else {
        if acc > 0x7FFF_FFFF {
            proof {
                assert(int_literal_val(s@) == Some(digits_val(body)));
            }
            None
        } else {
            Some(acc as i32)
        }
    }
}

} // verus!
