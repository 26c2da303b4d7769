//! Typed views of the card registers.

pub mod csd;
pub mod ocr;
pub mod register_address;
pub mod sd;
pub mod sdio;
