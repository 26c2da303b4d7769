//! A card type that holds interface, pins and settings in one, with
//! functions that report a failure without naming it.

pub mod mmc;
