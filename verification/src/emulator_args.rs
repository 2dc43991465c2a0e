//! What the host hands to the emulator when it starts it.

use vstd::prelude::*;

verus! {

/// The settings of a run.
#[derive(Debug, Clone, Default)]
pub struct EmulatorArgs {
    /// The path of the BIOS image to use.
    pub bios: String,
    /// Whether a line of trace is emitted for each executed instruction.
    pub debug: bool,
}

} // verus!
