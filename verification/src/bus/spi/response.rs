//! The single bytes that a card sends over SPI: the first response byte, the
//! tokens of the data phase, and how the driver reads them.

use vstd::prelude::*;
use crate::bits::bit8;
use crate::error::{CommandOrDataError, MciError};

verus! {

/// A flag of a response byte or of a token, known by its bit position.
pub trait Field: Sized {
    /// The bit position of the flag, 0 to 7.
    spec fn position(self) -> u8;

    /// The bit position of the flag.
    fn bit(self) -> (r: u8)
        ensures
            r == self.position(),
            r < 8,
    ;
}

/// A byte of flags.
pub trait BitField<F: Field>: Copy {
    /// The byte.
    spec fn byte(self) -> u8;

    /// The byte.
    fn value(self) -> (r: u8)
        ensures
            r == self.byte(),
    ;

    /// Whether the flag `field` is set.
    fn has(&self, field: F) -> (r: bool)
        ensures
            r == bit8(self.byte(), field.position()),
    {
        let value: u8 = (*self).value();
        let bit: u8 = field.bit();
        let mask: u8 = 1u8 << bit;
        (value & mask) != 0
    }

    /// Something where the flag `field` is clear, nothing where it is set.
    fn no(&self, field: F) -> (r: Option<()>)
        ensures
            r is Some <==> !bit8(self.byte(), field.position()),
    {
        if !self.has(field) {
            Some(())
        } else {
            None
        }
    }
}

/// The flags of the first response byte, from bit 0 to bit 7.
#[derive(Copy, Clone, Debug)]
pub enum R1ResponseField {
    Idle,
    EraseReset,
    IllegalCommand,
    CommandCRC,
    EraseSequence,
    Address,
    Parameter,
    Error,
}

impl Field for R1ResponseField {
    open spec fn position(self) -> u8 {
        match self {
            R1ResponseField::Idle => 0,
            R1ResponseField::EraseReset => 1,
            R1ResponseField::IllegalCommand => 2,
            R1ResponseField::CommandCRC => 3,
            R1ResponseField::EraseSequence => 4,
            R1ResponseField::Address => 5,
            R1ResponseField::Parameter => 6,
            R1ResponseField::Error => 7,
        }
    }

    fn bit(self) -> (r: u8) {
        match self {
            R1ResponseField::Idle => 0,
            R1ResponseField::EraseReset => 1,
            R1ResponseField::IllegalCommand => 2,
            R1ResponseField::CommandCRC => 3,
            R1ResponseField::EraseSequence => 4,
            R1ResponseField::Address => 5,
            R1ResponseField::Parameter => 6,
            R1ResponseField::Error => 7,
        }
    }
}

/// The first response byte.
#[derive(Copy, Clone, Debug)]
pub struct R1Response(pub u8);

impl From<u8> for R1Response {
    fn from(value: u8) -> (r: Self) {
        Self(value)
    }
}

impl vstd::std_specs::convert::FromSpecImpl<u8> for R1Response {
    open spec fn obeys_from_spec() -> bool {
        true
    }

    open spec fn from_spec(value: u8) -> Self {
        R1Response(value)
    }
}

impl BitField<R1ResponseField> for R1Response {
    open spec fn byte(self) -> u8 {
        self.0
    }

    fn value(self) -> (r: u8) {
        self.0
    }
}

/// The token that starts a data block on its way to the host.
pub const BLOCK_READ_DATA_TOKEN: u8 = 0xFE;

/// The flags of a data error token, from bit 0 to bit 4.
#[derive(Copy, Clone, Debug)]
pub enum ErrorTokenField {
    Error,
    CCError,
    CardECCFailed,
    OutOfRange,
    CardIsLocked,
}

impl Field for ErrorTokenField {
    open spec fn position(self) -> u8 {
        match self {
            ErrorTokenField::Error => 0,
            ErrorTokenField::CCError => 1,
            ErrorTokenField::CardECCFailed => 2,
            ErrorTokenField::OutOfRange => 3,
            ErrorTokenField::CardIsLocked => 4,
        }
    }

    fn bit(self) -> (r: u8) {
        match self {
            ErrorTokenField::Error => 0,
            ErrorTokenField::CCError => 1,
            ErrorTokenField::CardECCFailed => 2,
            ErrorTokenField::OutOfRange => 3,
            ErrorTokenField::CardIsLocked => 4,
        }
    }
}

/// A data error token: a byte whose upper four bits are clear.
#[derive(Copy, Clone, Debug)]
pub struct ErrorToken(pub u8);

impl ErrorToken {
    /// The byte as a data error token, where it is one.
    pub fn try_from(value: u8) -> (r: Option<Self>)
        ensures
            r is Some <==> value & 0xF0 == 0,
            r is Some ==> r->Some_0.0 == value,
    {
        if value & 0xF0 == 0 {
            Some(Self(value))
        } else {
            None
        }
    }
}

impl BitField<ErrorTokenField> for ErrorToken {
    open spec fn byte(self) -> u8 {
        self.0
    }

    fn value(self) -> (r: u8) {
        self.0
    }
}

/// The tokens that the host sends in the data phase of a write.
#[derive(Copy, Clone, Debug)]
pub enum WriteToken {
    /// Starts the block of a single block write.
    SingleWrite,
    /// Starts each block of a multiple block write.
    MultiWrite,
    /// Ends a multiple block write.
    StopTransmit,
}

impl WriteToken {
    /// The byte of the token.
    pub open spec fn spec_code(self) -> u8 {
        match self {
            WriteToken::SingleWrite => 0xFE,
            WriteToken::MultiWrite => 0xFC,
            WriteToken::StopTransmit => 0xFD,
        }
    }

    /// The byte of the token.
    pub fn code(self) -> (r: u8)
        ensures
            r == self.spec_code(),
    {
        match self {
            WriteToken::SingleWrite => 0xFE,
            WriteToken::MultiWrite => 0xFC,
            WriteToken::StopTransmit => 0xFD,
        }
    }
}

/// What the card says of a block that it received.
#[derive(Copy, Clone, Debug, PartialEq, Eq, Structural)]
pub enum ResponseCode {
    /// The block was accepted.
    Accepted,
    /// The checksum of the block was wrong.
    CRCError,
    /// The block could not be written.
    WriteError,
}

/// The data response token: a byte of the form `xxx0sss1`, where `sss` is the
/// status.
#[derive(Copy, Clone, Debug)]
pub struct ReadToken(u8);

impl ReadToken {
    /// The byte of the token.
    pub closed spec fn byte(self) -> u8 {
        self.0
    }

    /// The byte as a data response token, where it has the form of one.
    pub fn try_from(value: u8) -> (r: Option<Self>)
        ensures
            r is Some <==> value & 0b10001 == 0b00001,
            r is Some ==> r->Some_0.byte() == value,
    {
        if value & 0b10001 == 0b00001 {
            Some(Self(value))
        } else {
            None
        }
    }

    /// The status of the token, where its code is assigned.
    pub fn response_code(self) -> (r: Option<ResponseCode>)
        ensures
            r == response_code_of(self.byte()),
    {
        let code = (self.0 >> 1) & 0b111;
        if code == 0x2 {
            Some(ResponseCode::Accepted)
        } else if code == 0x5 {
            Some(ResponseCode::CRCError)
        } else if code == 0x6 {
            Some(ResponseCode::WriteError)
        } else {
            None
        }
    }
}

/// The status that the bits 1 to 3 of a data response token stand for.
pub open spec fn response_code_of(token: u8) -> Option<ResponseCode> {
    let code = (token >> 1) & 0b111;
    if code == 0x2 {
        Some(ResponseCode::Accepted)
    } else if code == 0x5 {
        Some(ResponseCode::CRCError)
    } else if code == 0x6 {
        Some(ResponseCode::WriteError)
    } else {
        None
    }
}

/// What the first response byte says against the command: a checksum error,
/// an illegal command, or a card that is idle.
pub open spec fn r1_error(r1: u8) -> Option<MciError> {
    if bit8(r1, 3) {
        Some(MciError::CommandError(CommandOrDataError::Crc))
    } else if bit8(r1, 2) {
        Some(MciError::CommandError(CommandOrDataError::Index))
    } else if bit8(r1, 0) {
        Some(MciError::WriteError)
    } else {
        None
    }
}

/// Reads the first response byte.
pub fn check_r1(r1: u8) -> (r: Result<(), MciError>)
    ensures
        r == (match r1_error(r1) {
            Some(e) => Err::<(), MciError>(e),
            None => Ok::<(), MciError>(()),
        }),
{
    let r1 = R1Response::from(r1);
    if r1.has(R1ResponseField::CommandCRC) {
        return Err(MciError::CommandError(CommandOrDataError::Crc));
    }
    if r1.has(R1ResponseField::IllegalCommand) {
        return Err(MciError::CommandError(CommandOrDataError::Index));
    }
    if r1.has(R1ResponseField::Idle) {
        return Err(MciError::WriteError);
    }
    Ok(())
}

/// What a byte in place of the start token says, where it is a data error
/// token: a card controller error counts as a checksum fault of the data, a
/// failed correction makes the card unusable, and the bare error flag is a
/// read error. A byte with a bit in its upper half, and an error token
/// without any of the three flags, says nothing.
pub open spec fn token_error(token: u8) -> Option<MciError> {
    if token & 0xF0 != 0 {
        None
    } else if bit8(token, 1) {
        Some(MciError::DataError(CommandOrDataError::Crc))
    } else if bit8(token, 2) {
        Some(MciError::UnusableCard)
    } else if bit8(token, 0) {
        Some(MciError::ReadError)
    } else {
        None
    }
}

/// Reads a byte that came in place of the start token.
pub fn check_token(token: u8) -> (r: Result<(), MciError>)
    ensures
        r == (match token_error(token) {
            Some(e) => Err::<(), MciError>(e),
            None => Ok::<(), MciError>(()),
        }),
{
    if let Some(token) = ErrorToken::try_from(token) {
        if token.has(ErrorTokenField::CCError) {
            return Err(MciError::DataError(CommandOrDataError::Crc));
        }
        if token.has(ErrorTokenField::CardECCFailed) {
            return Err(MciError::UnusableCard);
        }
        if token.has(ErrorTokenField::Error) {
            return Err(MciError::ReadError);
        }
    }
    Ok(())
}

/// What the byte that follows a written block says: a byte that has not the
/// form of a data response token is a read error, a status that is not
/// assigned is a write error, and so is the status of that name; the
/// checksum status is a checksum fault of the data.
pub open spec fn write_response_error(token: u8) -> Option<MciError> {
    if token & 0b10001 != 0b00001 {
        Some(MciError::ReadError)
    } else {
        match response_code_of(token) {
            None => Some(MciError::WriteError),
            Some(ResponseCode::CRCError) => Some(MciError::DataError(CommandOrDataError::Crc)),
            Some(ResponseCode::WriteError) => Some(MciError::WriteError),
            Some(ResponseCode::Accepted) => None,
        }
    }
}

/// Reads the byte that follows a written block.
pub fn check_write_response(token: u8) -> (r: Result<(), MciError>)
    ensures
        r == (match write_response_error(token) {
            Some(e) => Err::<(), MciError>(e),
            None => Ok::<(), MciError>(()),
        }),
{
    let token = match ReadToken::try_from(token) {
        None => {
            return Err(MciError::ReadError);
        },
        Some(token) => token,
    };
    match token.response_code() {
        None => Err(MciError::WriteError),
        Some(ResponseCode::CRCError) => Err(MciError::DataError(CommandOrDataError::Crc)),
        Some(ResponseCode::WriteError) => Err(MciError::WriteError),
        Some(ResponseCode::Accepted) => Ok(()),
    }
}

} // verus!
