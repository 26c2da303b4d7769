//! The native multimedia card interface as the host provides it.

use vstd::prelude::*;
use crate::bus::SdMmcBus;

verus! {

/// A native card interface: a transport that also reports its widest bus and
/// its high-speed capability and that hands out 128-bit responses.
pub trait Mci: SdMmcBus {

}

} // verus!
