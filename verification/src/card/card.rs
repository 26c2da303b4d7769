//! The card as the driver knows it.

use vstd::prelude::*;
use crate::bits::{bit8, bit_u8, put_bit_u8, with_bit8};
use crate::bus::recorded::Record;
use crate::card::version::CardVersion;
use crate::command_arguments::mmc::BusWidth;
use crate::registers::csd::CsdRegister;

verus! {

/// Transfer rate units, by the low three bits of the transfer speed code.
pub const SD_MMC_TRANS_UNITS: [u32; 7] = [10, 100, 1_000, 10_000, 0, 0, 0];

/// Transfer rate multipliers of SD cards, in tenths, by bits 3 to 6 of the
/// transfer speed code.
pub const SD_TRANS_MULTIPLIERS: [u32; 16] = [
    0,
    10,
    12,
    13,
    15,
    20,
    25,
    30,
    35,
    40,
    45,
    50,
    55,
    60,
    70,
    80,
];

/// Transfer rate multipliers of MMC, in tenths, by bits 3 to 6 of the
/// transfer speed code.
pub const MMC_TRANS_MULTIPLIERS: [u32; 16] = [
    0,
    10,
    12,
    13,
    15,
    20,
    26,
    30,
    35,
    40,
    45,
    52,
    55,
    60,
    70,
    80,
];

/// The kind of a card, as a set of flags: SD in bit 1, MMC in bit 2, SDIO in
/// bit 3, high capacity in bit 4.
#[derive(Clone, Copy, Debug, PartialEq, Eq, Structural)]
pub struct Type(pub u8);

impl Default for Type {
    fn default() -> (r: Self)
        ensures
            r.0 == 0,
    {
        Type(0)
    }
}

impl Type {
    /// Clears all flags.
    pub fn set_unknown(&mut self) -> (r: &mut Self)
        ensures
            *final(self) == *final(r),
            r.0 == 0,
    {
        self.0 = 0x0;
        self
    }

    /// Sets or clears the SD flag.
    pub fn set_sd(&mut self, sd: bool) -> (r: &mut Self)
        ensures
            *final(self) == *final(r),
            r.0 == with_bit8(old(self).0, 1, sd),
    {
        put_bit_u8(&mut self.0, 1, sd);
        self
    }

    /// Whether the card is an SD card.
    pub fn sd(&self) -> (r: bool)
        ensures
            r == bit8(self.0, 1),
    {
        bit_u8(self.0, 1)
    }

    /// Sets or clears the MMC flag.
    pub fn set_mmc(&mut self, mmc: bool) -> (r: &mut Self)
        ensures
            *final(self) == *final(r),
            r.0 == with_bit8(old(self).0, 2, mmc),
    {
        put_bit_u8(&mut self.0, 2, mmc);
        self
    }

    /// Whether the card is an MMC.
    pub fn mmc(&self) -> (r: bool)
        ensures
            r == bit8(self.0, 2),
    {
        bit_u8(self.0, 2)
    }

    /// Sets or clears the SDIO flag.
    pub fn set_sdio(&mut self, sdio: bool) -> (r: &mut Self)
        ensures
            *final(self) == *final(r),
            r.0 == with_bit8(old(self).0, 3, sdio),
    {
        put_bit_u8(&mut self.0, 3, sdio);
        self
    }

    /// Whether the card has I/O functions.
    pub fn sdio(&self) -> (r: bool)
        ensures
            r == bit8(self.0, 3),
    {
        bit_u8(self.0, 3)
    }

    /// Sets or clears the high capacity flag.
    pub fn set_high_capacity(&mut self, hc: bool) -> (r: &mut Self)
        ensures
            *final(self) == *final(r),
            r.0 == with_bit8(old(self).0, 4, hc),
    {
        put_bit_u8(&mut self.0, 4, hc);
        self
    }

    /// Whether the high capacity flag is set.
    pub open spec fn spec_high_capacity(self) -> bool {
        bit8(self.0, 4)
    }

    /// Whether the card is addressed in blocks rather than in bytes.
    pub fn high_capacity(&self) -> (r: bool)
        ensures
            r == self.spec_high_capacity(),
    {
        bit_u8(self.0, 4)
    }
}

/// Setting one flag of the kind leaves the others, and the flag reads back.
pub proof fn lemma_type_flags(val: u8, bit: u8, on: bool)
    by (bit_vector)
    requires
        bit < 8,
    ensures
        bit8(with_bit8(val, bit, on), bit) == on,
        forall|other: u8| other < 8 && other != bit ==> bit8(with_bit8(val, bit, on), other) == bit8(val, other),
{
}

/// Where a card is in its life.
#[derive(Clone, Copy, Debug, PartialEq, Eq, Structural)]
pub enum State {
    /// Initialised and ready for transfers.
    Ready,
    /// Detected, waiting for the contacts to settle.
    Debounce,
    /// Being initialised.
    Init,
    /// Failed in a way that rules out further use.
    Unusable,
    /// No card in the slot.
    NoCard,
}

/// What the driver knows of a card, without the transport.
#[derive(Clone, Copy, Debug)]
pub struct Settings {
    pub clock: u32,
    pub capacity: u32,
    pub rca: u16,
    pub state: State,
    pub card_type: Type,
    pub version: CardVersion,
    pub bus_width: BusWidth,
    pub csd: CsdRegister,
    pub high_speed: bool,
}

/// A card behind its transport.
pub struct Card<BUS> {
    /// The transport: a native interface or SPI.
    pub bus: BUS,
    /// The clock of the line in Hz; 400 kHz until the card is initialised.
    pub clock: u32,
    /// The capacity in KBytes.
    pub capacity: u32,
    /// The relative card address.
    pub rca: u16,
    /// The state of the card.
    pub state: State,
    /// The kind of the card.
    pub card_type: Type,
    /// The version of the card.
    pub version: CardVersion,
    /// The number of data lines in use.
    pub bus_width: BusWidth,
    /// The card specific data.
    pub csd: CsdRegister,
    /// Whether the card runs at high speed.
    pub high_speed: bool,
    /// What was asked of the transport so far.
    pub record: Ghost<Record>,
}

impl<BUS> Card<BUS> {
    /// What the driver knows of the card.
    pub open spec fn settings(self) -> Settings {
        Settings {
            clock: self.clock,
            capacity: self.capacity,
            rca: self.rca,
            state: self.state,
            card_type: self.card_type,
            version: self.version,
            bus_width: self.bus_width,
            csd: self.csd,
            high_speed: self.high_speed,
        }
    }

    /// The card as the command sequences see it: its settings and the record
    /// of its transport.
    pub open spec fn scene(self) -> crate::protocol::install::Scene {
        crate::protocol::install::Scene { settings: self.settings(), record: self.record@ }
    }

    /// What the driver knows of the card.
    pub fn snapshot(&self) -> (r: Settings)
        ensures
            r == self.settings(),
    {
        Settings {
            clock: self.clock,
            capacity: self.capacity,
            rca: self.rca,
            state: self.state,
            card_type: self.card_type,
            version: self.version,
            bus_width: self.bus_width,
            csd: self.csd,
            high_speed: self.high_speed,
        }
    }

    /// Takes `settings` as what the driver knows of the card.
    pub fn adopt(&mut self, settings: Settings)
        ensures
            final(self).settings() == settings,
            final(self).bus == old(self).bus,
            final(self).record == old(self).record,
    {
        self.clock = settings.clock;
        self.capacity = settings.capacity;
        self.rca = settings.rca;
        self.state = settings.state;
        self.card_type = settings.card_type;
        self.version = settings.version;
        self.bus_width = settings.bus_width;
        self.csd = settings.csd;
        self.high_speed = settings.high_speed;
    }

    /// A card that nothing is known of yet, behind the transport `bus`.
    pub fn spi(bus: BUS) -> (r: Self)
        ensures
            r.bus == bus,
            r.clock == 400_000,
            r.capacity == 0,
            r.rca == 0,
            r.state == State::NoCard,
            r.card_type == Type(0),
            r.version == CardVersion::Unknown,
            r.bus_width == BusWidth::_1BIT,
            forall|k: int| 0 <= k < 4 ==> r.csd.0[k] == 0,
            r.high_speed == false,
            r.record@ == Seq::<crate::bus::recorded::Exchange>::empty(),
    {
        Self {
            bus,
            clock: 400_000,
            capacity: 0,
            rca: 0,
            state: State::NoCard,
            card_type: Type::default(),
            version: CardVersion::Unknown,
            bus_width: BusWidth::_1BIT,
            csd: CsdRegister::default(),
            high_speed: false,
            record: Ghost(Seq::empty()),
        }
    }
}

} // verus!
