//! Decimal text of integers, for the messages that embed a native status
//! code.

use vstd::prelude::*;
use vstd::string::StringExecFns;

verus! {

/// The decimal digit character of `d` (`d < 10`; larger values give `'9'`
/// so that the function stays total).
pub open spec fn digit_char(d: nat) -> char {
    if d == 0 {
        '0'
    } else if d == 1 {
        '1'
    } else if d == 2 {
        '2'
    } else if d == 3 {
        '3'
    } else if d == 4 {
        '4'
    } else if d == 5 {
        '5'
    } else if d == 6 {
        '6'
    } else if d == 7 {
        '7'
    } else if d == 8 {
        '8'
    } else {
        '9'
    }
}

/// The decimal digits of `n`, most significant first, without a sign and
/// without leading zeros (except for `n == 0` itself).
pub open spec fn spec_u32_decimal(n: nat) -> Seq<char>
    decreases n,
{
    if n < 10 {
        seq![digit_char(n)]
    } else {
        spec_u32_decimal(n / 10).push(digit_char(n % 10))
    }
}

/// The decimal text of `x`: a minus sign for negative values, then the
/// digits of the magnitude.
pub open spec fn spec_i32_decimal(x: int) -> Seq<char> {
    if x < 0 {
        seq!['-'] + spec_u32_decimal((-x) as nat)
    } else {
        spec_u32_decimal(x as nat)
    }
}

/// Append the digit character of `d` to `s`.
fn push_digit(s: &mut String, d: u32)
    requires
        d < 10,
    ensures
        final(s)@ == old(s)@.push(digit_char(d as nat)),
{
    if d == 0 {
        s.append("0");
        proof {
            reveal_strlit("0");
            assert(s@ =~= old(s)@.push(digit_char(d as nat)));
        }
    } else if d == 1 {
        s.append("1");
        proof {
            reveal_strlit("1");
            assert(s@ =~= old(s)@.push(digit_char(d as nat)));
        }
    } else if d == 2 {
        s.append("2");
        proof {
            reveal_strlit("2");
            assert(s@ =~= old(s)@.push(digit_char(d as nat)));
        }
    } else if d == 3 {
        s.append("3");
        proof {
            reveal_strlit("3");
            assert(s@ =~= old(s)@.push(digit_char(d as nat)));
        }
    } else if d == 4 {
        s.append("4");
        proof {
            reveal_strlit("4");
            assert(s@ =~= old(s)@.push(digit_char(d as nat)));
        }
    } else if d == 5 {
        s.append("5");
        proof {
            reveal_strlit("5");
            assert(s@ =~= old(s)@.push(digit_char(d as nat)));
        }
    } else if d == 6 {
        s.append("6");
        proof {
            reveal_strlit("6");
            assert(s@ =~= old(s)@.push(digit_char(d as nat)));
        }
    } else if d == 7 {
        s.append("7");
        proof {
            reveal_strlit("7");
            assert(s@ =~= old(s)@.push(digit_char(d as nat)));
        }
    } else if d == 8 {
        s.append("8");
        proof {
            reveal_strlit("8");
            assert(s@ =~= old(s)@.push(digit_char(d as nat)));
        }
    } else {
        s.append("9");
        proof {
            reveal_strlit("9");
            assert(s@ =~= old(s)@.push(digit_char(d as nat)));
        }
    }
}

/// The decimal text of `n`.
pub fn u32_decimal(n: u32) -> (r: String)
    ensures
        r@ == spec_u32_decimal(n as nat),
    decreases n,
{
    if n < 10 {
        let mut s = String::new();
        push_digit(&mut s, n);
        proof {
            assert(s@ =~= spec_u32_decimal(n as nat));
        }
        s
    } else {
        let mut s = u32_decimal(n / 10);
        push_digit(&mut s, n % 10);
        s
    }
}

/// The decimal text of `x`, with a leading minus sign when negative.
pub fn i32_decimal(x: i32) -> (r: String)
    ensures
        r@ == spec_i32_decimal(x as int),
{
    if x >= 0 {
        u32_decimal(x as u32)
    } else {
        let magnitude: u32 = (-(x as i64)) as u32;
        let mut s = "-".to_string();
        let digits = u32_decimal(magnitude);
        s.append(digits.as_str());
        proof {
            reveal_strlit("-");
            assert(s@ =~= spec_i32_decimal(x as int));
        }
        s
    }
}

} // verus!
