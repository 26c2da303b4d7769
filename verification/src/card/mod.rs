//! The card model and the commands that act on one card.

pub mod card;
pub mod mmc;
pub mod spi;
pub mod version;

pub use card::{Card, State, Type, MMC_TRANS_MULTIPLIERS, SD_MMC_TRANS_UNITS, SD_TRANS_MULTIPLIERS};
