//! Command descriptors and command arguments.

pub mod mci_command;
pub mod mmc;
pub mod sd;
pub mod sdio;
