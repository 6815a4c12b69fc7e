use vstd::prelude::*;

verus! {

/// Start of the on-chip RAM that the primary core boots from.
pub const OCRAM_BASE: u32 = 0x2202_0000;

/// Start of the RAM of the companion (multimedia) core.
pub const D0_RAM_BASE: u32 = 0x3EF8_0000;

} // verus!
