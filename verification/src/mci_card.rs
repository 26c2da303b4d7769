//! The card in a slot of a native interface, with its pins.

use vstd::prelude::*;
use crate::error::MciError;
use crate::mci::Mci;
use crate::mmc_card::MmcCard;
use crate::pin::{condition, InputPin};
use crate::protocol::blocks::Line;
use crate::protocol::install::{line_of, Scene};

verus! {

pub use crate::registers::ocr::ocr_voltage_support;

/// A card in a slot of a native interface.
pub struct MciCard<MCI: Mci, WP: InputPin, DETECT: InputPin> {
    /// The card behind the interface.
    pub mmc_card: MmcCard<MCI>,
    /// The number of the slot.
    pub slot: u8,
    /// The write protect pin.
    pub wp: WP,
    /// Whether a high write protect pin means that the card is protected.
    pub wp_high_activated: bool,
    /// The card detect pin.
    pub detect: DETECT,
    /// Whether a high card detect pin means that a card is there.
    pub detect_high_activated: bool,
}

impl<MCI: Mci, WP: InputPin, DETECT: InputPin> MciCard<MCI, WP, DETECT> {
    /// The card as the command sequences see it.
    pub open spec fn scene(self) -> Scene {
        self.mmc_card.scene()
    }

    /// The line as the card now asks for it.
    pub open spec fn line(self) -> Line {
        line_of(self.mmc_card.settings(), self.slot)
    }

    /// The slot number and the polarities of the pins.
    pub open spec fn wiring(self) -> (u8, bool, bool) {
        (self.slot, self.wp_high_activated, self.detect_high_activated)
    }

    /// A card that nothing is known of yet, in the slot `slot` of `mci`.
    pub fn new(
        mci: MCI,
        write_protect_pin: WP,
        wp_high_activated: bool,
        detect_pin: DETECT,
        detect_high_activated: bool,
        slot: u8,
    ) -> (r: Self)
        ensures
            r.mmc_card.mmc == mci,
            r.mmc_card.clock == 400_000,
            r.mmc_card.capacity == 0,
            r.mmc_card.rca == 0,
            r.mmc_card.state == crate::card::card::State::NoCard,
            r.mmc_card.card_type == crate::card::card::Type(0),
            r.mmc_card.version == crate::card::version::CardVersion::Unknown,
            r.mmc_card.bus_width == crate::command_arguments::mmc::BusWidth::_1BIT,
            r.mmc_card.high_speed == false,
            r.mmc_card.record@ == Seq::<crate::bus::recorded::Exchange>::empty(),
            r.slot == slot,
            r.wp == write_protect_pin,
            r.wp_high_activated == wp_high_activated,
            r.detect == detect_pin,
            r.detect_high_activated == detect_high_activated,
    {
        MciCard {
            mmc_card: MmcCard::new(mci),
            slot,
            wp: write_protect_pin,
            wp_high_activated,
            detect: detect_pin,
            detect_high_activated,
        }
    }

    /// Whether the card is write protected: it is where the answer of the
    /// pin to "is it high" equals the polarity. A pin that cannot be read is
    /// an error.
    pub fn write_protected(&self) -> (r: Result<bool, MciError>)
        ensures
            r is Err ==> r == Err::<bool, MciError>(MciError::PinLevelReadError),
    {
        condition(self.wp.is_high(), self.wp_high_activated)
    }

    /// The line as the card now asks for it.
    pub fn line_now(&self) -> (r: Line)
        ensures
            r == self.line(),
    {
        Line {
            slot: self.slot,
            clock: self.mmc_card.clock,
            bus_width: self.mmc_card.bus_width,
            high_speed: self.mmc_card.high_speed,
        }
    }
}

} // verus!
