//! The initialisation of an MMC by the controller.

use vstd::prelude::*;
use crate::bus::SdMmcBus;
use crate::controller::controller::Controller;
use crate::error::MciError;
use crate::pin::InputPin;
use crate::protocol::install::{install, installed};

verus! {

impl<BUS: SdMmcBus, WP: InputPin, DETECT: InputPin> Controller<BUS, WP, DETECT> {
    /// Initialises an MMC behind a native interface: runs the identification,
    /// loads and decodes the card specific data, puts the card into the
    /// transfer state, and raises bus width and speed as far as card and
    /// interface allow. The card is ready where all of this went through, and
    /// unusable where it did not.
    pub fn init(&mut self) -> (r: Result<(), MciError>)
        ensures
            installed(old(self).scene(), final(self).scene(), old(self).slot, r),
            final(self).wiring() == old(self).wiring(),
    {
        let mut settings = self.card.snapshot();
        let r = install(&mut self.card.bus, &mut self.card.record, &mut settings, self.slot);
        self.card.adopt(settings);
        r
    }
}

} // verus!
