//! The card common control registers of an I/O card.

pub mod block_size;
pub mod bus_interface;
pub mod card_capability;
pub mod function_select;
pub mod high_speed;
pub mod io_enable;
pub mod power_control;
pub mod sd_physical_specification;
