//! Error taxonomy of the driver stack.

use vstd::prelude::*;

verus! {

/// What went wrong while a command or a data block was on the line.
#[derive(Clone, Copy, Debug, PartialEq, Eq, Structural)]
pub enum CommandOrDataError {
    /// The card did not answer in time.
    Timeout,
    /// The checksum did not match.
    Crc,
    /// The end bit was wrong.
    EndBit,
    /// The card rejected the command index.
    Index,
}

/// Faults that are specific to the set-up phase of a card.
#[derive(Clone, Copy, Debug, PartialEq, Eq, Structural)]
pub enum SetupError {
    /// The bus width could not be changed.
    CouldNotSetBusWidth,
    /// The card could not be switched to high speed.
    CouldNotSetToHighSpeed,
    /// The peripheral could not say whether it handles high speed.
    CouldNotCheckIfIsHighSpeed,
}

/// Faults of the caller or of the implementation rather than of the card.
#[derive(Clone, Copy, Debug, PartialEq, Eq, Structural)]
pub enum ImplError {
    /// A bounded retry loop ran out of attempts.
    TimedOut,
    /// The request cannot be served in the current configuration.
    InvalidConfiguration,
}

/// Every failure that the driver reports.
#[derive(Clone, Copy, Debug, PartialEq, Eq, Structural)]
pub enum MciError {
    /// A data block failed on the line.
    DataError(CommandOrDataError),
    /// The peripheral does not accept commands at the moment.
    CommandInhibited,
    /// A command failed on the line.
    CommandError(CommandOrDataError),
    /// The DMA engine of the peripheral failed.
    Adma,
    /// The addressed function group is busy.
    GroupBusy,
    /// The wanted tuple is not in the card's common I/O area.
    CiaCouldNotFindTuple,
    /// A transfer size of zero or of more than 512 bytes was asked for.
    IncorrectDataSize,
    /// The device could not be selected or configured.
    CouldNotSelectDevice,
    /// No card is in the slot.
    NoCard,
    /// The card cannot be used.
    UnusableCard,
    /// Reading failed.
    ReadError,
    /// The card is write protected.
    WriteProtected,
    /// Writing failed.
    WriteError,
    /// The level of a pin could not be read.
    PinLevelReadError,
    /// A set-up step failed.
    Setup(SetupError),
    /// The caller or the implementation is at fault.
    Impl(ImplError),
}

/// A result without a value that is no error is the one success there is.
pub proof fn lemma_done(r: Result<(), MciError>)
    ensures
        r is Ok ==> r == Ok::<(), MciError>(()),
{
    if r is Ok {
        let unit = r->Ok_0;
        assert(unit == ());
    }
}

} // verus!
