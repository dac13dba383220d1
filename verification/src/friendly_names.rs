//! Friendly display-name resolution.
//!
//! The hardware-management facility reports one record per active monitor:
//! a device instance identifier such as `DISPLAY3\...`, and the monitor's
//! human-friendly name as NUL-terminated UTF-16 code units. This module
//! holds the verified half of the resolution: it extracts the numeric
//! suffix of the identifier (the digits after the leftmost `DISPLAY`
//! immediately followed by a digit), maps it to a zero-based ordinal, and
//! associates the decoded, trimmed name with that ordinal. Querying the
//! facility itself is the host layer's job; it hands the records in as
//! plain values.

use vstd::prelude::*;
use vstd::string::*;
use std::collections::HashMap;

verus! {

broadcast use vstd::std_specs::hash::group_hash_axioms;

/// One record from the hardware-management query.
pub struct MonitorIdRecord {
    /// The device instance identifier.
    pub instance_name: String,
    /// The friendly name as UTF-16 code units, NUL-terminated.
    pub user_friendly_name: Vec<u16>,
    /// Whether the facility reports the monitor as active.
    pub active: bool,
}

/// An ASCII decimal digit.
pub open spec fn is_ascii_digit_char(c: char) -> bool {
    48 <= (c as u32) && (c as u32) <= 57
}

/// The value of an ASCII digit character.
pub open spec fn digit_val(c: char) -> int {
    (c as u32) - 48
}

/// `DISPLAY` immediately followed by a digit starts at position `i`.
pub open spec fn match_at(s: Seq<char>, i: int) -> bool {
    &&& 0 <= i
    &&& i + 8 <= s.len()
    &&& s[i] == 'D'
    &&& s[i + 1] == 'I'
    &&& s[i + 2] == 'S'
    &&& s[i + 3] == 'P'
    &&& s[i + 4] == 'L'
    &&& s[i + 5] == 'A'
    &&& s[i + 6] == 'Y'
    &&& is_ascii_digit_char(s[i + 7])
}

/// The leftmost match position at or after `j`, if any.
pub open spec fn first_match_from(s: Seq<char>, j: int) -> Option<int>
    decreases s.len() - j,
{
    if j + 8 > s.len() {
        None
    } else if match_at(s, j) {
        Some(j)
    } else {
        first_match_from(s, j + 1)
    }
}

/// The end of the maximal digit run starting at `j`.
pub open spec fn digit_run_end(s: Seq<char>, j: int) -> int
    decreases s.len() - j,
{
    if j < s.len() && is_ascii_digit_char(s[j]) {
        digit_run_end(s, j + 1)
    } else {
        j
    }
}

/// The numeric value of a digit string, most significant digit first.
pub open spec fn digits_val(ds: Seq<char>) -> int
    decreases ds.len(),
{
    if ds.len() == 0 {
        0
    } else {
        digits_val(ds.drop_last()) * 10 + digit_val(ds.last())
    }
}

/// Every character is an ASCII digit.
pub open spec fn all_digits(ds: Seq<char>) -> bool {
    forall|k: int| 0 <= k < ds.len() ==> is_ascii_digit_char(#[trigger] ds[k])
}

/// The zero-based ordinal encoded in a device instance identifier: the
/// digits after the leftmost `DISPLAY`-with-digit, minus one, saturating
/// at zero. `None` when no such suffix occurs or its value overflows.
pub open spec fn display_index(s: Seq<char>) -> Option<usize> {
    match first_match_from(s, 0) {
        None => None,
        Some(i) => {
            let v = digits_val(s.subrange(i + 7, digit_run_end(s, i + 7)));
            if v > usize::MAX {
                None
            } else if v == 0 {
                Some(0usize)
            } else {
                Some((v - 1) as usize)
            }
        },
    }
}

/// The code units before the first NUL.
pub open spec fn nul_len_from(u: Seq<u16>, j: int) -> int
    decreases u.len() - j,
{
    if j < u.len() && u[j] != 0 {
        nul_len_from(u, j + 1)
    } else {
        j
    }
}

/// The prefix of the code units up to the first NUL.
pub open spec fn nul_prefix_of(u: Seq<u16>) -> Seq<u16> {
    u.subrange(0, nul_len_from(u, 0))
}

/// What `String::from_utf16_lossy` decodes a sequence of code units to;
/// a function of the units alone.
pub uninterp spec fn utf16_lossy(units: Seq<u16>) -> Seq<char>;

/// What `str::trim` leaves of a string; a function of its characters alone.
pub uninterp spec fn trim_of(s: Seq<char>) -> Seq<char>;

/// Relies on `String::from_utf16_lossy`: the decoding depends on the code
/// units alone.
#[verifier::external_body]
fn decode_utf16_lossy(units: &Vec<u16>) -> (r: String)
    ensures
        r@ == utf16_lossy(units@),
{
    String::from_utf16_lossy(units)
}

/// Relies on `str::trim`: the result depends on the characters alone.
#[verifier::external_body]
pub(crate) fn trim_string(s: &String) -> (r: String)
    ensures
        r@ == trim_of(s@),
{
    s.trim().to_owned()
}

/// The trimmed, decoded friendly name of one record.
pub open spec fn row_name(row: MonitorIdRecord) -> Seq<char> {
    trim_of(utf16_lossy(nul_prefix_of(row.user_friendly_name@)))
}

/// The map entry one record contributes: its zero-based ordinal and its
/// name, or nothing when the identifier has no usable suffix or the name
/// is empty once trimmed.
pub open spec fn row_entry(row: MonitorIdRecord) -> Option<(usize, Seq<char>)> {
    match display_index(row.instance_name@) {
        None => None,
        Some(idx) => {
            if row_name(row).len() == 0 {
                None
            } else {
                Some((idx, row_name(row)))
            }
        },
    }
}

/// The friendly-name map the records build up, in order; a later record
/// with the same ordinal overwrites an earlier one.
pub open spec fn friendly_map_of(rows: Seq<MonitorIdRecord>) -> Map<usize, Seq<char>>
    decreases rows.len(),
{
    if rows.len() == 0 {
        Map::empty()
    } else {
        let m = friendly_map_of(rows.drop_last());
        match row_entry(rows.last()) {
            None => m,
            Some(e) => m.insert(e.0, e.1),
        }
    }
}

/// Whether a match starts at `i`, given the length in hand.
fn marker_match_at(s: &str, i: usize, n: usize) -> (r: bool)
    requires
        n == s@.len(),
        i + 8 <= n,
    ensures
        r == match_at(s@, i as int),
{
    let c0 = s.get_char(i);
    let c1 = s.get_char(i + 1);
    let c2 = s.get_char(i + 2);
    let c3 = s.get_char(i + 3);
    let c4 = s.get_char(i + 4);
    let c5 = s.get_char(i + 5);
    let c6 = s.get_char(i + 6);
    if c0 == 'D' && c1 == 'I' && c2 == 'S' && c3 == 'P' && c4 == 'L' && c5 == 'A' && c6 == 'Y' {
        let c7 = s.get_char(i + 7);
        let u: u32 = c7 as u32;
        48 <= u && u <= 57
    } else {
        false
    }
}

/// The leftmost match position in the whole string.
fn find_first_match(s: &str, n: usize) -> (r: Option<usize>)
    requires
        n == s@.len(),
    ensures
        match r {
            Some(i) => first_match_from(s@, 0) == Some(i as int),
            None => first_match_from(s@, 0) is None,
        },
{
    if n < 8 {
        return None;
    }
    let mut i: usize = 0;
    while i <= n - 8
        invariant
            n == s@.len(),
            n >= 8,
            i <= n,
            first_match_from(s@, 0) == first_match_from(s@, i as int),
        decreases n - i,
    {
        if marker_match_at(s, i, n) {
            return Some(i);
        }
        i = i + 1;
    }
    None
}

/// A successful scan really found a match, inside the string.
proof fn lemma_first_match_is_match(s: Seq<char>, j: int, i: int)
    requires
        first_match_from(s, j) == Some(i),
    ensures
        match_at(s, i),
        j <= i,
        i + 8 <= s.len(),
    decreases s.len() - j,
{
    if j + 8 > s.len() {
    } else if match_at(s, j) {
    } else {
        lemma_first_match_is_match(s, j + 1, i);
    }
}

/// Parses the digit run `s[start..end)` as a `usize`; `None` on overflow.
fn parse_digit_run(s: &str, start: usize, end: usize) -> (r: Option<usize>)
    requires
        start <= end <= s@.len(),
        all_digits(s@.subrange(start as int, end as int)),
    ensures
        match r {
            Some(v) => v as int == digits_val(s@.subrange(start as int, end as int)),
            None => digits_val(s@.subrange(start as int, end as int)) > usize::MAX,
        },
{
    let mut acc: usize = 0;
    let mut k: usize = start;
    while k < end
        invariant
            start <= k <= end <= s@.len(),
            all_digits(s@.subrange(start as int, end as int)),
            acc as int == digits_val(s@.subrange(start as int, k as int)),
        decreases end - k,
    {
        let c = s.get_char(k);
        proof {
            assert(s@.subrange(start as int, end as int)[k - start] == s@[k as int]);
        }
        let d: u32 = (c as u32) - 48;
        let du: usize = d as usize;
        if acc > (usize::MAX - du) / 10 {
            proof {
                lemma_digits_val_nonneg(s@.subrange(start as int, k as int));
                assert(s@.subrange(start as int, k as int + 1).drop_last() =~= s@.subrange(
                    start as int,
                    k as int,
                ));
                assert(digits_val(s@.subrange(start as int, k as int + 1)) > usize::MAX);
                lemma_digits_val_extend_ge(s@.subrange(start as int, end as int), k + 1 - start);
                assert(s@.subrange(start as int, end as int).subrange(0, k + 1 - start) =~= s@
                    .subrange(start as int, k as int + 1));
            }
            return None;
        }
        acc = acc * 10 + du;
        proof {
            assert(s@.subrange(start as int, k as int + 1).drop_last() =~= s@.subrange(
                start as int,
                k as int,
            ));
        }
        k = k + 1;
    }
    proof {
        assert(s@.subrange(start as int, end as int) =~= s@.subrange(start as int, k as int));
    }
    Some(acc)
}

/// A digit string's value never falls below zero.
proof fn lemma_digits_val_nonneg(ds: Seq<char>)
    requires
        all_digits(ds),
    ensures
        digits_val(ds) >= 0,
    decreases ds.len(),
{
    if ds.len() > 0 {
        assert(all_digits(ds.drop_last()));
        lemma_digits_val_nonneg(ds.drop_last());
    }
}

/// Extending a digit string never lowers its value.
proof fn lemma_digits_val_extend_ge(ds: Seq<char>, m: int)
    requires
        all_digits(ds),
        0 <= m <= ds.len(),
    ensures
        digits_val(ds) >= digits_val(ds.subrange(0, m)),
    decreases ds.len() - m,
{
    if m < ds.len() {
        lemma_digits_val_extend_ge(ds, m + 1);
        assert(ds.subrange(0, m + 1).drop_last() =~= ds.subrange(0, m));
        lemma_digits_val_nonneg(ds.subrange(0, m));
        assert(is_ascii_digit_char(ds[m]));
        assert(digits_val(ds.subrange(0, m + 1)) >= digits_val(ds.subrange(0, m)));
    } else {
        assert(ds.subrange(0, m) =~= ds);
    }
}

/// The zero-based ordinal from a device instance identifier.
fn display_index_exec(inst: &String) -> (r: Option<usize>)
    ensures
        r == display_index(inst@),
{
    let s = inst.as_str();
    let n = s.unicode_len();
    match find_first_match(s, n) {
        None => None,
        Some(i) => {
            proof {
                lemma_first_match_is_match(s@, 0, i as int);
            }
            let mut e: usize = i + 7;
            while e < n && is_digit_at(s, e, n)
                invariant
                    n == s@.len(),
                    i as int + 7 <= e <= n,
                    digit_run_end(s@, i as int + 7) == digit_run_end(s@, e as int),
                    all_digits(s@.subrange(i as int + 7, e as int)),
                decreases n - e,
            {
                proof {
                    assert forall|k: int|
                        0 <= k < e as int + 1 - (i as int + 7) implies is_ascii_digit_char(
                        #[trigger] s@.subrange(i as int + 7, e as int + 1)[k],
                    ) by {
                        assert(s@.subrange(i as int + 7, e as int + 1)[k] == s@[i as int + 7 + k]);
                        if i as int + 7 + k < e as int {
                            assert(s@.subrange(i as int + 7, e as int)[k] == s@[i as int + 7 + k]);
                        }
                    }
                }
                e = e + 1;
            }
            proof {
                assert(digit_run_end(s@, e as int) == e as int);
            }
            match parse_digit_run(s, i + 7, e) {
                None => None,
                Some(v) => {
                    if v == 0 {
                        Some(0)
                    } else {
                        Some(v - 1)
                    }
                },
            }
        },
    }
}

/// Whether the character at `k` is an ASCII digit.
fn is_digit_at(s: &str, k: usize, n: usize) -> (r: bool)
    requires
        n == s@.len(),
        k < n,
    ensures
        r == is_ascii_digit_char(s@[k as int]),
{
    let c = s.get_char(k);
    let u: u32 = c as u32;
    48 <= u && u <= 57
}

/// The code units before the first NUL.
fn nul_prefix(u: &Vec<u16>) -> (r: Vec<u16>)
    ensures
        r@ == nul_prefix_of(u@),
{
    let mut out: Vec<u16> = Vec::new();
    let mut j: usize = 0;
    while j < u.len() && u[j] != 0
        invariant
            j <= u@.len(),
            out@ =~= u@.subrange(0, j as int),
            nul_len_from(u@, 0) == nul_len_from(u@, j as int),
        decreases u@.len() - j,
    {
        out.push(u[j]);
        proof {
            assert(out@ =~= u@.subrange(0, j as int + 1));
        }
        j = j + 1;
    }
    proof {
        assert(nul_len_from(u@, j as int) == j as int);
        assert(out@ =~= nul_prefix_of(u@));
    }
    out
}

/// The entry one record contributes to the friendly-name map.
fn row_entry_exec(row: &MonitorIdRecord) -> (r: Option<(usize, String)>)
    ensures
        (r is None) == (row_entry(*row) is None),
        r matches Some(p) ==> row_entry(*row) matches Some(q) && p.0 == q.0 && p.1@ == q.1,
{
    match display_index_exec(&row.instance_name) {
        None => None,
        Some(idx) => {
            let pref = nul_prefix(&row.user_friendly_name);
            let decoded = decode_utf16_lossy(&pref);
            let name = trim_string(&decoded);
            if name.as_str().is_empty() {
                None
            } else {
                Some((idx, name))
            }
        },
    }
}

/// Builds the ordinal-to-friendly-name map from the facility's records.
/// Records without a usable numeric suffix, or whose name is empty once
/// decoded and trimmed, contribute nothing; a later record overwrites an
/// earlier one with the same ordinal.
pub fn windows_monitor_friendly_names(rows: &Vec<MonitorIdRecord>) -> (r: HashMap<usize, String>)
    ensures
        r@.dom() == friendly_map_of(rows@).dom(),
        forall|k: usize|
            friendly_map_of(rows@).contains_key(k) ==> r@[k]@ == friendly_map_of(rows@)[k],
{
    let mut map: HashMap<usize, String> = HashMap::new();
    let mut i: usize = 0;
    while i < rows.len()
        invariant
            i <= rows@.len(),
            map@.dom() == friendly_map_of(rows@.take(i as int)).dom(),
            forall|k: usize|
                friendly_map_of(rows@.take(i as int)).contains_key(k) ==> map@[k]@
                    == friendly_map_of(rows@.take(i as int))[k],
        decreases rows@.len() - i,
    {
        let ghost prev = friendly_map_of(rows@.take(i as int));
        let entry = row_entry_exec(&rows[i]);
        proof {
            assert(rows@.take(i as int + 1).drop_last() =~= rows@.take(i as int));
            assert(rows@.take(i as int + 1).last() == rows@[i as int]);
        }
        match entry {
            Some(p) => {
                let (k, name) = p;
                map.insert(k, name);
                proof {
                    assert(map@.dom() =~= friendly_map_of(rows@.take(i as int + 1)).dom());
                }
            },
            None => {
                proof {
                    assert(friendly_map_of(rows@.take(i as int + 1)) == prev);
                }
            },
        }
        i = i + 1;
    }
    proof {
        assert(rows@.take(rows@.len() as int) =~= rows@);
    }
    map
}

} // verus!
