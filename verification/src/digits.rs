//! Verified decimal rendering of integers.
//!
//! The monitor composite key is built from decimal renderings of signed and
//! unsigned integers; these functions produce them and are proved to match
//! the spec-level renderings `dec_seq` and `dec_int_seq`.

use vstd::prelude::*;
use vstd::string::*;

verus! {

/// The character for one decimal digit value.
pub open spec fn digit_char(d: nat) -> char {
    if d == 0 {
        '0'
    } else if d == 1 {
        '1'
    } else if d == 2 {
        '2'
    } else if d == 3 {
        '3'
    } else if d == 4 {
        '4'
    } else if d == 5 {
        '5'
    } else if d == 6 {
        '6'
    } else if d == 7 {
        '7'
    } else if d == 8 {
        '8'
    } else {
        '9'
    }
}

/// Decimal digits of `n`, most significant first, with no leading zeros
/// (a single `'0'` for zero).
pub open spec fn dec_seq(n: nat) -> Seq<char>
    decreases n,
{
    if n < 10 {
        seq![digit_char(n)]
    } else {
        dec_seq(n / 10).push(digit_char(n % 10))
    }
}

/// Decimal rendering of a signed value: a leading `'-'` for negatives.
pub open spec fn dec_int_seq(x: int) -> Seq<char> {
    if x < 0 {
        seq!['-'] + dec_seq((-x) as nat)
    } else {
        dec_seq(x as nat)
    }
}

/// A one-character string slice for a digit value.
pub(crate) fn digit_str(d: u64) -> (r: &'static str)
    requires
        d < 10,
    ensures
        r@ == seq![digit_char(d as nat)],
{
    proof {
        reveal_strlit("0");
        reveal_strlit("1");
        reveal_strlit("2");
        reveal_strlit("3");
        reveal_strlit("4");
        reveal_strlit("5");
        reveal_strlit("6");
        reveal_strlit("7");
        reveal_strlit("8");
        reveal_strlit("9");
    }
    let r: &'static str = if d == 0 {
        "0"
    } else if d == 1 {
        "1"
    } else if d == 2 {
        "2"
    } else if d == 3 {
        "3"
    } else if d == 4 {
        "4"
    } else if d == 5 {
        "5"
    } else if d == 6 {
        "6"
    } else if d == 7 {
        "7"
    } else if d == 8 {
        "8"
    } else {
        "9"
    };
    proof {
        assert(r@ =~= seq![digit_char(d as nat)]);
    }
    r
}

/// Decimal rendering of an unsigned value.
pub fn fmt_u64(n: u64) -> (r: String)
    ensures
        r@ == dec_seq(n as nat),
    decreases n,
{
    if n < 10 {
        digit_str(n).to_owned()
    } else {
        let prefix = fmt_u64(n / 10);
        let r = prefix.concat(digit_str(n % 10));
        proof {
            assert(r@ =~= dec_seq(n as nat));
        }
        r
    }
}

/// Decimal rendering of a signed value.
pub fn fmt_i32(x: i32) -> (r: String)
    ensures
        r@ == dec_int_seq(x as int),
{
    if x >= 0 {
        fmt_u64(x as u64)
    } else {
        let mag: u64 = (-(x as i64)) as u64;
        proof {
            reveal_strlit("-");
        }
        let mut r = ("-").to_owned();
        let rest = fmt_u64(mag);
        r.append(rest.as_str());
        proof {
            assert(r@ =~= dec_int_seq(x as int));
        }
        r
    }
}

} // verus!
