//! Arguments of SDIO commands.

pub mod cmd52;
pub mod cmd53;
