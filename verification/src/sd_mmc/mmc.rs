//! The commands of an MMC on the card type that holds interface, pins and
//! settings in one.

use vstd::prelude::*;
use crate::bus::recorded::Record;
use crate::card::card::{Settings, State, Type};
use crate::card::version::CardVersion;
use crate::command_arguments::mmc::BusWidth;
use crate::decode::{decode_mmc, mmc_decoded};
use crate::error::MciError;
use crate::mci::Mci;
use crate::pin::InputPin;
use crate::protocol::card::{
    bus_width_taken, ext_csd_taken, mmc_conditions_taken, mmc_high_speed_taken, take_bus_width,
    take_ext_csd, take_mmc_conditions, take_mmc_high_speed,
};
use crate::protocol::install::Scene;
use crate::registers::csd::CsdRegister;

verus! {

pub use crate::protocol::mmc::{EXT_CSD_BSIZE, EXT_CSD_CARD_TYPE_INDEX, EXT_CSD_SEC_COUNT_INDEX};

/// A card in a slot of a native interface, with its pins and all that is
/// known of it.
pub struct SdMmcCard<MCI: Mci, WP: InputPin, DETECT: InputPin> {
    /// The interface.
    pub mci: MCI,
    /// The write protect pin.
    pub wp: WP,
    /// The card detect pin.
    pub detect: DETECT,
    /// The clock of the line in Hz; 400 kHz until the card is initialised.
    pub clock: u32,
    /// The capacity in KBytes.
    pub capacity: u32,
    /// The relative card address.
    pub rca: u16,
    /// The state of the card.
    pub state: State,
    /// The kind of the card.
    pub card_type: Type,
    /// The version of the card.
    pub version: CardVersion,
    /// The number of data lines in use.
    pub bus_width: BusWidth,
    /// The card specific data.
    pub csd: CsdRegister,
    /// Whether the card runs at high speed.
    pub high_speed: bool,
    /// What was asked of the interface so far.
    pub record: Ghost<Record>,
}

/// The outcome with its failure left without a name.
pub open spec fn unnamed<T>(r: Result<T, MciError>) -> Result<T, ()> {
    match r {
        Ok(value) => Ok(value),
        Err(_) => Err(()),
    }
}

/// As [`mmc_conditions_taken`], with the failure left without a name.
pub open spec fn unnamed_mmc_conditions_taken(start: Scene, end: Scene, r: Result<(), ()>) -> bool {
    exists|named: Result<(), MciError>| #[trigger]
        mmc_conditions_taken(start, end, named) && r == unnamed(named)
}

/// As [`bus_width_taken`], with the failure left without a name.
pub open spec fn unnamed_bus_width_taken(start: Scene, end: Scene, width: BusWidth, r: Result<bool, ()>) -> bool {
    exists|named: Result<bool, MciError>| #[trigger]
        bus_width_taken(start, end, width, named) && r == unnamed(named)
}

/// As [`mmc_high_speed_taken`], with the failure left without a name.
pub open spec fn unnamed_mmc_high_speed_taken(start: Scene, end: Scene, r: Result<bool, ()>) -> bool {
    exists|named: Result<bool, MciError>| #[trigger]
        mmc_high_speed_taken(start, end, named) && r == unnamed(named)
}

/// As [`ext_csd_taken`], with the failure left without a name.
pub open spec fn unnamed_ext_csd_taken(start: Scene, end: Scene, r: Result<bool, ()>) -> bool {
    exists|named: Result<bool, MciError>| #[trigger]
        ext_csd_taken(start, end, named) && r == unnamed(named)
}

impl<MCI: Mci, WP: InputPin, DETECT: InputPin> SdMmcCard<MCI, WP, DETECT> {
    /// What the driver knows of the card.
    pub open spec fn settings(self) -> Settings {
        Settings {
            clock: self.clock,
            capacity: self.capacity,
            rca: self.rca,
            state: self.state,
            card_type: self.card_type,
            version: self.version,
            bus_width: self.bus_width,
            csd: self.csd,
            high_speed: self.high_speed,
        }
    }

    /// The card as the command sequences see it.
    pub open spec fn scene(self) -> Scene {
        Scene { settings: self.settings(), record: self.record@ }
    }

    /// A card that nothing is known of yet.
    pub fn new(mci: MCI, wp: WP, detect: DETECT) -> (r: Self)
        ensures
            r.mci == mci,
            r.wp == wp,
            r.detect == detect,
            r.clock == 400_000,
            r.capacity == 0,
            r.rca == 0,
            r.state == State::NoCard,
            r.card_type == Type(0),
            r.version == CardVersion::Unknown,
            r.bus_width == BusWidth::_1BIT,
            r.high_speed == false,
            r.record@ == Seq::<crate::bus::recorded::Exchange>::empty(),
    {
        SdMmcCard {
            mci,
            wp,
            detect,
            clock: 400_000,
            capacity: 0,
            rca: 0,
            state: State::NoCard,
            card_type: Type::default(),
            version: CardVersion::Unknown,
            bus_width: BusWidth::_1BIT,
            csd: CsdRegister::default(),
            high_speed: false,
            record: Ghost(Seq::empty()),
        }
    }

    /// What the driver knows of the card.
    pub fn snapshot(&self) -> (r: Settings)
        ensures
            r == self.settings(),
    {
        Settings {
            clock: self.clock,
            capacity: self.capacity,
            rca: self.rca,
            state: self.state,
            card_type: self.card_type,
            version: self.version,
            bus_width: self.bus_width,
            csd: self.csd,
            high_speed: self.high_speed,
        }
    }

    /// Takes `settings` as what the driver knows of the card.
    pub fn adopt(&mut self, settings: Settings)
        ensures
            final(self).settings() == settings,
            final(self).mci == old(self).mci,
            final(self).wp == old(self).wp,
            final(self).detect == old(self).detect,
            final(self).record == old(self).record,
    {
        self.clock = settings.clock;
        self.capacity = settings.capacity;
        self.rca = settings.rca;
        self.state = settings.state;
        self.card_type = settings.card_type;
        self.version = settings.version;
        self.bus_width = settings.bus_width;
        self.csd = settings.csd;
        self.high_speed = settings.high_speed;
    }

    /// Polls an MMC for its operating conditions until it is powered up, and
    /// notes high capacity where the card reports sector access.
    pub fn mmc_mci_send_operation_condition(&mut self) -> (r: Result<(), ()>)
        ensures
            unnamed_mmc_conditions_taken(old(self).scene(), final(self).scene(), r),
    {
        let mut settings = self.snapshot();
        let named = take_mmc_conditions(&mut self.mci, &mut self.record, &mut settings);
        self.adopt(settings);
        assert(mmc_conditions_taken(old(self).scene(), self.scene(), named));
        match named {
            Ok(value) => Ok(value),
            Err(_) => Err(()),
        }
    }

    /// Asks an MMC to set its bus width. A card that refuses keeps its width
    /// and the answer is `false`; that is no fault.
    pub fn mmc_cmd6_set_bus_width(&mut self, bus_width: BusWidth) -> (r: Result<bool, ()>)
        ensures
            unnamed_bus_width_taken(old(self).scene(), final(self).scene(), bus_width, r),
    {
        let mut settings = self.snapshot();
        let named = take_bus_width(&mut self.mci, &mut self.record, &mut settings, &bus_width);
        self.adopt(settings);
        assert(bus_width_taken(old(self).scene(), self.scene(), bus_width, named));
        match named {
            Ok(value) => Ok(value),
            Err(_) => Err(()),
        }
    }

    /// Asks an MMC to turn high-speed timing on, and notes the speed and the
    /// clock of 52 MHz where the card took it.
    pub fn mmc_cmd6_set_high_speed(&mut self) -> (r: Result<bool, ()>)
        ensures
            unnamed_mmc_high_speed_taken(old(self).scene(), final(self).scene(), r),
    {
        let mut settings = self.snapshot();
        let named = take_mmc_high_speed(&mut self.mci, &mut self.record, &mut settings);
        self.adopt(settings);
        assert(mmc_high_speed_taken(old(self).scene(), self.scene(), named));
        match named {
            Ok(value) => Ok(value),
            Err(_) => Err(()),
        }
    }

    /// Reads the extended card specific data. Says whether the card runs at
    /// 52 MHz, and takes the sector count as the capacity where the card
    /// specific data holds the maximum device size.
    pub fn mmc_cmd8_high_speed_capable_and_update_capacity(&mut self) -> (r: Result<bool, ()>)
        ensures
            unnamed_ext_csd_taken(old(self).scene(), final(self).scene(), r),
    {
        let mut settings = self.snapshot();
        let named = take_ext_csd(&mut self.mci, &mut self.record, &mut settings);
        self.adopt(settings);
        assert(ext_csd_taken(old(self).scene(), self.scene(), named));
        match named {
            Ok(value) => Ok(value),
            Err(_) => Err(()),
        }
    }

    /// Decodes the card specific data of an MMC into version, clock and
    /// capacity.
    pub fn mmc_decode_csd(&mut self) -> (r: Result<(), ()>)
        ensures
            r is Ok,
            mmc_decoded(old(self).settings(), final(self).settings()),
            final(self).record == old(self).record,
    {
        let mut settings = self.snapshot();
        decode_mmc(&mut settings);
        self.adopt(settings);
        Ok(())
    }
}

} // verus!
