//! The BIOS ROM: a read-only image of 512 KiB.

use vstd::prelude::*;
use crate::generic_error::{ErrorKind, GenericError};
use crate::word::{lemma_word_by_shifts, word_at};

verus! {

/// The size of a BIOS image: 512 KiB.
pub const BIOS_SIZE: usize = 524288;

/// BIOS image
#[derive(Clone, Debug)]
pub struct Bios {
    /// Memory data
    pub data: Vec<u8>,
}

impl Bios {
    /// Whether the image is complete: exactly 512 KiB.
    pub open spec fn wf(&self) -> bool {
        self.data@.len() == BIOS_SIZE
    }

    /// Takes the bytes of an image. Bytes of any other size than 512 KiB are
    /// refused.
    pub fn new(buffer: Vec<u8>) -> (loaded: Result<Self, GenericError>)
        ensures
            match loaded {
                Ok(bios) => buffer@.len() == BIOS_SIZE && bios.data == buffer,
                Err(error) => buffer@.len() != BIOS_SIZE && error.kind
                    == ErrorKind::InvalidBiosSize,
            },
    {
        if buffer.len() == BIOS_SIZE {
            Ok(Self { data: buffer })
        } else {
            Err(GenericError::new(ErrorKind::InvalidBiosSize))
        }
    }

    /// The little-endian word at `offset` of the image.
    pub fn load32(&self, offset: u32) -> (word: u32)
        requires
            offset + 4 <= self.data@.len(),
        ensures
            word == word_at(self.data@, offset as int),
    {
        assert(self.data@.len() == self.data.len());
        let offset = offset as usize;
        let b0 = self.data[offset] as u32;
        let b1 = self.data[offset + 1] as u32;
        let b2 = self.data[offset + 2] as u32;
        let b3 = self.data[offset + 3] as u32;
        proof {
            lemma_word_by_shifts(b0, b1, b2, b3);
        }
        b0 | (b1 << 8) | (b2 << 16) | (b3 << 24)
    }
}

impl Default for Bios {
    /// The placeholder that stands in a bus before an image is installed: it
    /// holds no bytes.
    fn default() -> (bios: Self)
        ensures
            bios.data@.len() == 0,
    {
        Bios { data: Vec::new() }
    }
}

} // verus!
