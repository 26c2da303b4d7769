//! Indices into the mode segment of the extended card specific data.

use vstd::prelude::*;

verus! {

/// The byte of the extended card specific data that a switch command writes.
#[derive(Clone, Copy, Debug, PartialEq, Eq, Structural)]
pub enum ModeIndex {
    /// Command set.
    CmdSet,
    /// Command set revision.
    CmdSetRev,
    /// Power class.
    PowerClass,
    /// High-speed interface timing.
    HsTimingIndex,
    /// Bus width mode.
    BusWidth,
    /// Erased memory content.
    ErasedMemCont,
}

impl ModeIndex {
    /// The index of the byte.
    pub open spec fn spec_index(self) -> u8 {
        match self {
            ModeIndex::CmdSet => 191,
            ModeIndex::CmdSetRev => 189,
            ModeIndex::PowerClass => 187,
            ModeIndex::HsTimingIndex => 185,
            ModeIndex::BusWidth => 183,
            ModeIndex::ErasedMemCont => 181,
        }
    }

    /// The index of the byte.
    pub fn index(self) -> (r: u8)
        ensures
            r == self.spec_index(),
    {
        match self {
            ModeIndex::CmdSet => 191,
            ModeIndex::CmdSetRev => 189,
            ModeIndex::PowerClass => 187,
            ModeIndex::HsTimingIndex => 185,
            ModeIndex::BusWidth => 183,
            ModeIndex::ErasedMemCont => 181,
        }
    }
}

} // verus!
