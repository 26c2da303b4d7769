//! Definitions that are specific to SD cards.

pub mod sd_physical_specification;
