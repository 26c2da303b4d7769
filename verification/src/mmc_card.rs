//! The card behind a native interface, without slot and pins.

use vstd::prelude::*;
use crate::bus::recorded::Record;
use crate::card::card::{Settings, State, Type};
use crate::card::version::CardVersion;
use crate::command_arguments::mmc::BusWidth;
use crate::protocol::install::Scene;
use crate::registers::csd::CsdRegister;

verus! {

pub use crate::card::card::{MMC_TRANS_MULTIPLIERS, SD_MMC_TRANS_UNITS, SD_TRANS_MULTIPLIERS};

/// A card behind its interface.
pub struct MmcCard<MMC> {
    /// The interface.
    pub mmc: MMC,
    /// The clock of the line in Hz; 400 kHz until the card is initialised.
    pub clock: u32,
    /// The capacity in KBytes.
    pub capacity: u32,
    /// The relative card address.
    pub rca: u16,
    /// The state of the card.
    pub state: State,
    /// The kind of the card.
    pub card_type: Type,
    /// The version of the card.
    pub version: CardVersion,
    /// The number of data lines in use.
    pub bus_width: BusWidth,
    /// The card specific data.
    pub csd: CsdRegister,
    /// Whether the card runs at high speed.
    pub high_speed: bool,
    /// What was asked of the interface so far.
    pub record: Ghost<Record>,
}

impl<MMC> MmcCard<MMC> {
    /// What the driver knows of the card.
    pub open spec fn settings(self) -> Settings {
        Settings {
            clock: self.clock,
            capacity: self.capacity,
            rca: self.rca,
            state: self.state,
            card_type: self.card_type,
            version: self.version,
            bus_width: self.bus_width,
            csd: self.csd,
            high_speed: self.high_speed,
        }
    }

    /// The card as the command sequences see it: its settings and the record
    /// of its interface.
    pub open spec fn scene(self) -> Scene {
        Scene { settings: self.settings(), record: self.record@ }
    }

    /// A card that nothing is known of yet, behind the interface `mmc`.
    pub fn new(mmc: MMC) -> (r: Self)
        ensures
            r.mmc == mmc,
            r.clock == 400_000,
            r.capacity == 0,
            r.rca == 0,
            r.state == State::NoCard,
            r.card_type == Type(0),
            r.version == CardVersion::Unknown,
            r.bus_width == BusWidth::_1BIT,
            forall|k: int| 0 <= k < 4 ==> r.csd.0[k] == 0,
            r.high_speed == false,
            r.record@ == Seq::<crate::bus::recorded::Exchange>::empty(),
    {
        MmcCard {
            mmc,
            clock: 400_000,
            capacity: 0,
            rca: 0,
            state: State::NoCard,
            card_type: Type::default(),
            version: CardVersion::Unknown,
            bus_width: BusWidth::_1BIT,
            csd: CsdRegister::default(),
            high_speed: false,
            record: Ghost(Seq::empty()),
        }
    }

    /// What the driver knows of the card.
    pub fn snapshot(&self) -> (r: Settings)
        ensures
            r == self.settings(),
    {
        Settings {
            clock: self.clock,
            capacity: self.capacity,
            rca: self.rca,
            state: self.state,
            card_type: self.card_type,
            version: self.version,
            bus_width: self.bus_width,
            csd: self.csd,
            high_speed: self.high_speed,
        }
    }

    /// Takes `settings` as what the driver knows of the card.
    pub fn adopt(&mut self, settings: Settings)
        ensures
            final(self).settings() == settings,
            final(self).mmc == old(self).mmc,
            final(self).record == old(self).record,
    {
        self.clock = settings.clock;
        self.capacity = settings.capacity;
        self.rca = settings.rca;
        self.state = settings.state;
        self.card_type = settings.card_type;
        self.version = settings.version;
        self.bus_width = settings.bus_width;
        self.csd = settings.csd;
        self.high_speed = settings.high_speed;
    }
}

} // verus!
