//! Host-side driver stack for SD, MMC and SDIO cards.
//!
//! The stack brings a card from power-on through identification and tuning
//! to the transfer state, and then moves blocks. It runs over a native card
//! interface that the host provides, or over an SPI port with a chip select.
//! Transport and pins are consumed as traits whose methods promise nothing;
//! what the driver asks of them is kept as ghost state, and the contracts say
//! how each result follows from what came back.

pub mod bits;
pub mod bus;
pub mod card;
pub mod command_arguments;
pub mod commands;
pub mod controller;
pub mod decode;
pub mod error;
pub mod functions;
pub mod mci;
pub mod mci_card;
pub mod mmc_card;
pub mod mode_index;
pub mod pin;
pub mod protocol;
pub mod registers;
pub mod sd;
pub mod sd_mmc;
pub mod transaction;
