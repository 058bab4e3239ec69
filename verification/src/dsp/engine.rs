//! The engine's fixed dimensions and menus. The chain itself is floating
//! point and runs with the signal path.

use vstd::prelude::*;

verus! {

/// Longest block the input scratch covers. A longer one is processed
/// normally; only the aliasing readout, which is a meter, skips it.
pub const MAX_BLOCK: usize = 8192;

/// Points in the transfer curve the page draws: the `transfer` stream's
/// 256 values, for an input swept across the curve's span.
pub const TRANSFER_POINTS: usize = 256;
/// Points in the colour curve the page draws.
pub const COLOR_POINTS: usize = 129;

/// How the dry/wet control crossfades.
pub const MIX_LAW_NAMES: [&'static str; 2] = ["Linear", "Equal Power"];
/// The ceiling stage's modes.
pub const CLIP_MODE_NAMES: [&'static str; 3] = ["Off", "Soft", "Hard"];

} // verus!
