//! Arguments of SD commands.

pub mod cmd6;
pub mod cmd8;
