//! Why a build identifier could not be extracted.

use vstd::prelude::*;

verus! {

/// The ways extraction fails; each one ends the call.
#[derive(Debug, Clone, Copy, PartialEq, Eq, Structural)]
pub enum ExtractError {
    /// The image ends before a field that had to be read.
    IoFailure,
    /// The first four bytes are not the ELF magic.
    NotElf,
    /// The class byte does not announce a 64-bit image.
    WrongClass,
    /// The header gives no program-header table (its offset is zero).
    NoProgramHeaders,
    /// No note segment holds a recognised build-id note.
    BuildIdNotFound,
}

} // verus!
