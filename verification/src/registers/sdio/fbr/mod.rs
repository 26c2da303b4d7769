//! The function basic registers of an I/O card.

pub mod csa_pointer;
