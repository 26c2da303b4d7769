//! The SPI peripheral as the driver consumes it.

use vstd::prelude::*;

verus! {

/// A byte-oriented, full-duplex serial port. The methods promise nothing:
/// the driver is verified for every byte that comes in and every fault.
pub trait SerialPort {
    /// Clocks the bytes out and drops what comes in meanwhile.
    fn write(&mut self, bytes: &[u8]) -> Result<(), ()>;

    /// Clocks one byte out and gives the byte that came in meanwhile.
    fn transfer(&mut self, byte: u8) -> Result<u8, ()>;
}

} // verus!
