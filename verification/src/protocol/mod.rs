//! The command sequences of the card protocols, written once for every
//! transport and every card model of this library.
//!
//! Each sequence comes as a script of calls, a statement of how the outcome
//! follows from the answers, and the function that runs the script on a
//! transport.

pub mod blocks;
pub mod card;
pub mod install;
pub mod mmc;
pub mod poll;
pub mod sd;
pub mod sdio;
pub mod slot;
