//! The selection of the slot: the card is looked for, a card that was just
//! detected is taken into initialisation, and the device is selected.

use vstd::prelude::*;
use crate::bus::recorded::{pin_sensed, sense_pin, Record};
use crate::bus::Bus;
use crate::card::card::{Settings, State};
use crate::command_arguments::mmc::BusWidth;
use crate::error::MciError;
use crate::pin::InputPin;
use crate::protocol::blocks::{device_selected, select_device, Line};
use crate::protocol::install::{line_of, scene, Scene};

verus! {

/// What the selection of the slot makes of the settings of a card that is
/// there: a card that waits for its contacts to settle goes into
/// initialisation, with the clock at 400 kHz, one data line and no high
/// speed. Any other card stays as it is.
pub open spec fn taken_in(settings: Settings) -> Settings {
    if settings.state == State::Debounce {
        Settings {
            state: State::Init,
            clock: 400_000,
            bus_width: BusWidth::_1BIT,
            high_speed: false,
            ..settings
        }
    } else {
        settings
    }
}

/// The record grew by a question to the card detect pin, and `r` tells
/// whether a card is there: it is where the answer of the pin equals
/// `active`. With `ask_high` the pin is asked whether it is high, else
/// whether it is low.
pub open spec fn presence_sensed(
    before: Record,
    after: Record,
    ask_high: bool,
    active: bool,
    r: Result<bool, MciError>,
) -> bool {
    pin_sensed(before, after, true, ask_high, active, r)
}

/// The slot was selected, and `r` is the outcome. The card detect pin is
/// asked for its level; a pin that cannot be read ends the selection. An
/// answer that does not equal `active` means that no card is there. Else the
/// card is taken in; an unusable card ends the selection; and the device is
/// selected on the transport.
pub open spec fn slot_selected(
    start: Scene,
    end: Scene,
    ask_high: bool,
    active: bool,
    slot: u8,
    r: Result<(), MciError>,
) -> bool {
    exists|sensed: Record, present: Result<bool, MciError>| #[trigger]
        presence_sensed(start.record, sensed, ask_high, active, present) && match present {
            Err(e) => end == scene(start.settings, sensed) && r == Err::<(), MciError>(e),
            Ok(false) => end == scene(Settings { state: State::NoCard, ..start.settings }, sensed)
                && r == Err::<(), MciError>(MciError::NoCard),
            Ok(true) => if taken_in(start.settings).state == State::Unusable {
                end == scene(taken_in(start.settings), sensed) && r == Err::<(), MciError>(
                    MciError::UnusableCard,
                )
            } else {
                end.settings == taken_in(start.settings) && device_selected(
                    sensed,
                    end.record,
                    line_of(taken_in(start.settings), slot),
                    r,
                )
            },
        }
}

/// Selects the slot. A card is there where the answer of the card detect pin
/// equals `active`; with `ask_high` the pin is asked whether it is high, else
/// whether it is low.
pub fn select_slot<B: Bus, P: InputPin>(
    bus: &mut B,
    record: &mut Ghost<Record>,
    settings: &mut Settings,
    pin: &P,
    ask_high: bool,
    active: bool,
    slot: u8,
) -> (r: Result<(), MciError>)
    ensures
        slot_selected(
            scene(*old(settings), old(record)@),
            scene(*final(settings), final(record)@),
            ask_high,
            active,
            slot,
            r,
        ),
{
    let ghost start = scene(*settings, record@);
    let present = sense_pin(pin, record, true, ask_high, active);
    assert(presence_sensed(start.record, record@, ask_high, active, present));
    match present {
        Err(e) => {
            return Err(e);
        },
        Ok(false) => {
            settings.state = State::NoCard;
            return Err(MciError::NoCard);
        },
        Ok(true) => {},
    }
    if settings.state == State::Debounce {
        settings.state = State::Init;
        settings.clock = 400_000;
        settings.bus_width = BusWidth::_1BIT;
        settings.high_speed = false;
    }
    if settings.state == State::Unusable {
        return Err(MciError::UnusableCard);
    }
    let line = Line {
        slot,
        clock: settings.clock,
        bus_width: settings.bus_width,
        high_speed: settings.high_speed,
    };
    select_device(bus, record, &line)
}

} // verus!
