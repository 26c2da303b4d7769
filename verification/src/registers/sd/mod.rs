//! Registers of SD memory cards.

pub mod card_status;
pub mod scr;
pub mod switch_status;
