//! Verified core of a desktop overlay backend.
//!
//! The library models the logic behind a set of host-callable commands:
//! monitor enumeration with a deterministic composite key, window placement
//! and overlay lifecycle management, auto-startup registration, and a
//! process probe. All operating-system and windowing calls live outside the
//! library; the functions here work on plain values and carry contracts.

pub mod digits;
pub mod error;
pub mod friendly_names;
pub mod key;
pub mod probe;
pub mod startup;
pub mod monitors;
pub mod wm;

use vstd::prelude::*;

verus! {

} // verus!
