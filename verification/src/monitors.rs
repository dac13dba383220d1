//! Monitor enumeration records.
//!
//! The windowing subsystem reports each monitor's raw geometry; this module
//! turns one fresh enumeration into the records the UI consumes: ordinal id,
//! optional device and friendly names, geometry, a primary flag derived by
//! position equality against the reported primary monitor, and the
//! deterministic composite key.
//!
//! The scale factor is carried as an integer count of hundredths of the
//! subsystem's scale, which is exactly the precision the composite key
//! renders.

use vstd::prelude::*;
use std::collections::HashMap;
use crate::key::{key_seq, mk_key};

verus! {

broadcast use vstd::std_specs::hash::group_hash_axioms;

/// One monitor as the windowing subsystem reports it.
pub struct RawMonitor {
    /// The system device name, when the subsystem knows one.
    pub name: Option<String>,
    /// Left edge in physical pixels.
    pub x: i32,
    /// Top edge in physical pixels.
    pub y: i32,
    /// Width in physical pixels.
    pub width: u32,
    /// Height in physical pixels.
    pub height: u32,
    /// Scale factor in hundredths.
    pub scale_centi: u32,
}

/// One monitor as reported to the UI.
pub struct MonitorInfo {
    /// Ordinal index within this enumeration; not stable across calls.
    pub id: usize,
    /// The system device name, when known.
    pub name: Option<String>,
    /// A human-friendly display name, when one was resolved.
    pub friendly: Option<String>,
    /// Left edge in physical pixels.
    pub x: i32,
    /// Top edge in physical pixels.
    pub y: i32,
    /// Width in physical pixels.
    pub width: u32,
    /// Height in physical pixels.
    pub height: u32,
    /// Scale factor in hundredths.
    pub scale_centi: u32,
    /// Whether this monitor sits at the primary monitor's position.
    pub primary: bool,
    /// Deterministic key for cross-call identity matching.
    pub key: String,
}

/// The primary flag: position equality against the reported primary
/// monitor's position, false when none was reported.
pub open spec fn is_primary_at(primary_pos: Option<(i32, i32)>, x: i32, y: i32) -> bool {
    match primary_pos {
        Some(p) => p.0 == x && p.1 == y,
        None => false,
    }
}

/// The friendly name chosen for ordinal `i` from the resolved name map.
pub open spec fn friendly_for(friendly: Map<usize, String>, i: usize) -> Option<String> {
    if friendly.contains_key(i) {
        Some(friendly[i])
    } else {
        None
    }
}

/// What one reported record must hold for the raw monitor at ordinal `i`.
pub open spec fn monitor_info_matches(
    m: MonitorInfo,
    rm: RawMonitor,
    i: usize,
    primary_pos: Option<(i32, i32)>,
    friendly: Map<usize, String>,
) -> bool {
    &&& m.id == i
    &&& m.name == rm.name
    &&& m.friendly == friendly_for(friendly, i)
    &&& m.x == rm.x
    &&& m.y == rm.y
    &&& m.width == rm.width
    &&& m.height == rm.height
    &&& m.scale_centi == rm.scale_centi
    &&& m.primary == is_primary_at(primary_pos, rm.x, rm.y)
    &&& m.key@ == key_seq(rm.x as int, rm.y as int, rm.width as nat, rm.height as nat,
        rm.scale_centi as nat)
}

/// Builds the records for one fresh enumeration: `raw` in subsystem order,
/// the reported primary monitor's position, and the best-effort friendly
/// name map keyed by ordinal.
pub fn list_monitors(
    raw: &Vec<RawMonitor>,
    primary_pos: Option<(i32, i32)>,
    friendly: &HashMap<usize, String>,
) -> (r: Vec<MonitorInfo>)
    ensures
        r@.len() == raw@.len(),
        forall|i: usize|
            0 <= i < raw@.len() ==> monitor_info_matches(
                #[trigger] r@[i as int],
                raw@[i as int],
                i,
                primary_pos,
                friendly@,
            ),
{
    let mut out: Vec<MonitorInfo> = Vec::new();
    let mut i: usize = 0;
    while i < raw.len()
        invariant
            i <= raw@.len(),
            out@.len() == i,
            forall|j: usize|
                0 <= j < i ==> monitor_info_matches(
                    #[trigger] out@[j as int],
                    raw@[j as int],
                    j,
                    primary_pos,
                    friendly@,
                ),
        decreases raw@.len() - i,
    {
        let rm = &raw[i];
        let name = match &rm.name {
            Some(s) => Some(s.clone()),
            None => None,
        };
        let fr = match friendly.get(&i) {
            Some(s) => Some(s.clone()),
            None => None,
        };
        let primary = match primary_pos {
            Some(p) => p.0 == rm.x && p.1 == rm.y,
            None => false,
        };
        let key = mk_key(rm.x, rm.y, rm.width, rm.height, rm.scale_centi);
        out.push(
            MonitorInfo {
                id: i,
                name,
                friendly: fr,
                x: rm.x,
                y: rm.y,
                width: rm.width,
                height: rm.height,
                scale_centi: rm.scale_centi,
                primary,
                key,
            },
        );
        i = i + 1;
    }
    out
}

/// The composite key is deterministic: two enumerations that report the
/// same geometry yield the same keys in the same relative order, whatever
/// the primary position or friendly names of either call.
pub proof fn lemma_keys_deterministic(
    r1: Seq<MonitorInfo>,
    r2: Seq<MonitorInfo>,
    raw: Seq<RawMonitor>,
    pp1: Option<(i32, i32)>,
    pp2: Option<(i32, i32)>,
    f1: Map<usize, String>,
    f2: Map<usize, String>,
)
    requires
        r1.len() == raw.len(),
        r2.len() == raw.len(),
        forall|i: usize|
            0 <= i < raw.len() ==> monitor_info_matches(#[trigger] r1[i as int], raw[i as int], i, pp1, f1),
        forall|i: usize|
            0 <= i < raw.len() ==> monitor_info_matches(#[trigger] r2[i as int], raw[i as int], i, pp2, f2),
    ensures
        forall|i: usize| 0 <= i < raw.len() ==> #[trigger] r1[i as int].key@ == r2[i as int].key@,
{
    assert forall|i: usize|
        0 <= i < raw.len() implies #[trigger] r1[i as int].key@ == r2[i as int].key@ by {
        assert(monitor_info_matches(r1[i as int], raw[i as int], i, pp1, f1));
        assert(monitor_info_matches(r2[i as int], raw[i as int], i, pp2, f2));
    }
}

} // verus!
