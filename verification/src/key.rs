//! The monitor composite key.
//!
//! A monitor's identity is not stable across enumeration calls, so callers
//! match monitors across calls by a deterministic key derived from position,
//! size and scale: `"x:y:WxH@S"` with the scale rendered to two decimal
//! places. The scale is carried as an integer count of hundredths, so the
//! whole key is a pure function of five integers.

use vstd::prelude::*;
use vstd::string::*;
use crate::digits::{dec_int_seq, dec_seq, digit_char, digit_str, fmt_i32, fmt_u64};

verus! {

/// The key text for a monitor at `(x, y)` of `width x height` pixels with a
/// scale factor of `centi` hundredths.
pub open spec fn key_seq(x: int, y: int, width: nat, height: nat, centi: nat) -> Seq<char> {
    dec_int_seq(x) + seq![':'] + dec_int_seq(y) + seq![':'] + dec_seq(width) + seq!['x']
        + dec_seq(height) + seq!['@'] + dec_seq(centi / 100) + seq!['.'] + seq![
        digit_char((centi % 100) / 10),
        digit_char(centi % 10),
    ]
}

/// Builds the composite key for one monitor.
pub fn mk_key(x: i32, y: i32, width: u32, height: u32, scale_centi: u32) -> (r: String)
    ensures
        r@ == key_seq(x as int, y as int, width as nat, height as nat, scale_centi as nat),
{
    proof {
        reveal_strlit(":");
        reveal_strlit("x");
        reveal_strlit("@");
        reveal_strlit(".");
    }
    let mut r = fmt_i32(x);
    r.append(":");
    r.append(fmt_i32(y).as_str());
    r.append(":");
    r.append(fmt_u64(width as u64).as_str());
    r.append("x");
    r.append(fmt_u64(height as u64).as_str());
    r.append("@");
    r.append(fmt_u64((scale_centi / 100) as u64).as_str());
    r.append(".");
    r.append(digit_str(((scale_centi % 100) / 10) as u64));
    r.append(digit_str((scale_centi % 10) as u64));
    proof {
        assert(r@ =~= key_seq(x as int, y as int, width as nat, height as nat,
            scale_centi as nat));
    }
    r
}

} // verus!
