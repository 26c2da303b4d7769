//! Registers of I/O cards.

pub mod cccr;
pub mod fbr;
