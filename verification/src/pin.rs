//! The pins that the driver consumes: card detect and write protect as
//! inputs, chip select as an output.
//!
//! The methods promise nothing: the driver is verified for every level and
//! every fault.

use vstd::prelude::*;
use crate::error::MciError;

verus! {

/// A pin whose level can be read.
pub trait InputPin {
    /// Whether the pin is high.
    fn is_high(&self) -> Result<bool, ()>;

    /// Whether the pin is low.
    fn is_low(&self) -> Result<bool, ()>;
}

/// A pin whose level can be set.
pub trait OutputPin {
    /// Drives the pin low.
    fn set_low(&mut self) -> Result<(), ()>;

    /// Drives the pin high.
    fn set_high(&mut self) -> Result<(), ()>;
}

/// What a reading of a pin means for a condition that holds where the
/// reading equals `active`: a fault of the pin is an error.
pub open spec fn condition_of(reading: Result<bool, ()>, active: bool) -> Result<bool, MciError> {
    match reading {
        Ok(level) => Ok(level == active),
        Err(_) => Err(MciError::PinLevelReadError),
    }
}

/// Says whether a condition holds that holds where the reading of a pin
/// equals `active`.
pub fn condition(reading: Result<bool, ()>, active: bool) -> (r: Result<bool, MciError>)
    ensures
        r == condition_of(reading, active),
{
    match reading {
        Ok(level) => Ok(level == active),
        Err(_) => Err(MciError::PinLevelReadError),
    }
}

} // verus!
