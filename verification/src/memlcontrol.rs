//! The memory-control registers: they hold the base addresses of the two
//! expansion regions and accept nothing but the canonical values.

use vstd::prelude::*;
use crate::generic_error::{ErrorKind, GenericError};

verus! {

/// The base address of Expansion 1, the only value that the register at
/// offset 0 accepts.
pub const EXPANSION_1_BASE: u32 = 0x1f00_0000;

/// The base address of Expansion 2, the only value that the register at
/// offset 4 accepts.
pub const EXPANSION_2_BASE: u32 = 0x1f80_2000;

pub struct Memlcontrol {}

impl Memlcontrol {
    /// What a store of `word` at `offset` comes to: `None` where the
    /// register accepts the word, and the error where it does not.
    pub open spec fn store_outcome(offset: u32, word: u32) -> Option<Result<(), GenericError>> {
        if offset == 0 {
            if word != EXPANSION_1_BASE {
                Some(Err(GenericError { kind: ErrorKind::BadExpansion1Base { word } }))
            } else {
                None
            }
        } else if offset == 4 {
            if word != EXPANSION_2_BASE {
                Some(Err(GenericError { kind: ErrorKind::BadExpansion2Base { word } }))
            } else {
                None
            }
        } else {
            Some(Err(GenericError { kind: ErrorKind::UnhandledMemlcontrolWrite { offset, word } }))
        }
    }

    /// The word that a load at `offset` returns: the canonical base
    /// addresses at offsets 0 and 4, zero elsewhere.
    pub open spec fn register(offset: u32) -> u32 {
        if offset == 0 {
            EXPANSION_1_BASE
        } else if offset == 4 {
            EXPANSION_2_BASE
        } else {
            0
        }
    }

    /// Checks a store to the registers. Nothing is kept: the two registers
    /// accept only the value that they already hold.
    pub fn store_32(offset: u32, word: u32) -> (outcome: Option<Result<(), GenericError>>)
        ensures
            outcome == Self::store_outcome(offset, word),
    {
        match offset {
            0 => {
                if word != EXPANSION_1_BASE {
                    return Some(Err(GenericError { kind: ErrorKind::BadExpansion1Base { word } }));
                }
            },
            4 => {
                if word != EXPANSION_2_BASE {
                    return Some(Err(GenericError { kind: ErrorKind::BadExpansion2Base { word } }));
                }
            },
            _ => {
                return Some(
                    Err(GenericError { kind: ErrorKind::UnhandledMemlcontrolWrite { offset, word } }),
                );
            },
        }
        None
    }

    /// Loads from the registers.
    pub fn read_32(offset: u32) -> (word: u32)
        ensures
            word == Self::register(offset),
    {
        match offset {
            0 => EXPANSION_1_BASE,
            4 => EXPANSION_2_BASE,
            _ => 0,
        }
    }
}

} // verus!
