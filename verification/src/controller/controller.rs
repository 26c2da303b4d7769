//! The controller of one slot: a card, its slot number and its pins.

use vstd::prelude::*;
use crate::bus::{Adtc, Bus, Read, Write};
use crate::card::Card;
use crate::error::MciError;
use crate::pin::{condition, InputPin};
use crate::protocol::blocks::Line;
use crate::protocol::install::{line_of, Scene};

verus! {

pub use crate::registers::ocr::ocr_voltage_support;

/// The controller of one slot.
pub struct Controller<BUS, WP, DETECT> {
    /// The card in the slot.
    pub card: Card<BUS>,
    /// The number of the slot.
    pub slot: u8,
    /// The write protect pin.
    pub write_protect_pin: WP,
    /// The card detect pin.
    pub detect_pin: DETECT,
    /// The answer of the write protect pin to "is it low" at which the card
    /// counts as protected.
    pub lower_is_true: bool,
    /// The answer of the card detect pin to "is it low" at which a card
    /// counts as present.
    pub detect_lower_is_true: bool,
}

impl<BUS: Adtc + Bus + Read + Write, WP: InputPin, DETECT: InputPin> Controller<BUS, WP, DETECT> {
    /// The card as the command sequences see it.
    pub open spec fn scene(self) -> Scene {
        self.card.scene()
    }

    /// The line as the card now asks for it.
    pub open spec fn line(self) -> Line {
        line_of(self.card.settings(), self.slot)
    }

    /// The slot number and the polarities of the write protect pin and of the
    /// card detect pin.
    pub open spec fn wiring(self) -> (u8, bool, bool) {
        (self.slot, self.lower_is_true, self.detect_lower_is_true)
    }

    /// A controller for `card` in the slot `slot`. Both pins take
    /// `lower_is_true` as their polarity; the polarity of the card detect pin
    /// can be set apart afterwards.
    pub fn new(
        card: Card<BUS>,
        write_protect_pin: WP,
        detect_pin: DETECT,
        lower_is_true: bool,
        slot: u8,
    ) -> (r: Self)
        ensures
            r.card == card,
            r.slot == slot,
            r.write_protect_pin == write_protect_pin,
            r.detect_pin == detect_pin,
            r.lower_is_true == lower_is_true,
            r.detect_lower_is_true == lower_is_true,
    {
        Controller {
            card,
            slot,
            write_protect_pin,
            detect_pin,
            lower_is_true,
            detect_lower_is_true: lower_is_true,
        }
    }

    /// Whether the card is write protected: it is where the answer of the
    /// pin to "is it low" equals the polarity. A pin that cannot be read is
    /// an error.
    pub fn write_protected(&self) -> (r: Result<bool, MciError>)
        ensures
            r is Err ==> r == Err::<bool, MciError>(MciError::PinLevelReadError),
    {
        condition(self.write_protect_pin.is_low(), self.lower_is_true)
    }
}

} // verus!
