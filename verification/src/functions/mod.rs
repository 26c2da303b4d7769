//! The commands of a card in a slot of a native interface, by family.

pub mod mci;
pub mod mmc;
pub mod sd;
pub mod sdio;
pub mod sdmmc;
