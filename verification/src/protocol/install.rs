//! The initialisation of an MMC behind a native interface: from the reset
//! to the transfer state, with the widest bus and the highest speed that card
//! and interface agree on.
//!
//! The sequence is a chain of stages. Each stage is stated by a predicate
//! that says what the stage asks of the transport, what it makes of the
//! answer, and which stage follows; a stage that fails ends the sequence.

use vstd::prelude::*;
use crate::bits::with_bit8;
use crate::bus::recorded::{
    command, continues, done_or_failed, flag_or_failed, grown_by, high_speed_capable,
    max_bus_width, width_or_failed, Call, Exchange, Record,
};
use crate::bus::SdMmcBus;
use crate::card::card::{Settings, State, Type};
use crate::command_arguments::mmc::{
    bus_width_argument, bus_width_switch, high_speed_argument, high_speed_switch, BusWidth,
};
use crate::commands::{
    MMC_CMD3_SET_RELATIVE_ADDR, SDMMC_CMD2_ALL_SEND_CID, SDMMC_CMD7_SELECT_CARD_CMD,
    SDMMC_MCI_CMD0_GO_IDLE_STATE,
};
use crate::decode::{decode_mmc, mmc_decoded};
use crate::error::{lemma_done, MciError, SetupError};
use crate::protocol::blocks::{device_selected, select_device, Line};
use crate::protocol::mmc::{
    addressed, block_length_set, csd_loaded, ext_csd_loaded, load_csd, load_ext_csd, mmc_probed,
    probe, set_block_length, switch, switched, ExtCsd,
};
use crate::registers::csd::CsdRegister;

verus! {

/// A card at a point of a sequence: what is known of it, and what has been
/// asked of its transport.
pub struct Scene {
    pub settings: Settings,
    pub record: Record,
}

/// The line as the settings of a card ask for it.
pub open spec fn line_of(settings: Settings, slot: u8) -> Line {
    Line {
        slot,
        clock: settings.clock,
        bus_width: settings.bus_width,
        high_speed: settings.high_speed,
    }
}

/// The record grew by one command without a data phase, and `r` is what the
/// transport said to it.
pub open spec fn commanded(before: Record, after: Record, cmd: u32, arg: u32, r: Result<
    (),
    MciError,
>) -> bool {
    grown_by(before, after, Exchange { call: Call::Command { cmd, arg }, reply: done_or_failed(r) })
}

/// The last stage: the block length is set to 512 bytes, and the card is
/// ready where that went through.
pub open spec fn block_length_stage(now: Scene, end: Scene, r: Result<(), MciError>) -> bool {
    &&& block_length_set(now.record, end.record, r)
    &&& end.settings == (if r is Ok {
        Settings { state: State::Ready, ..now.settings }
    } else {
        now.settings
    })
}

/// The stage that selects the device with the line as the card now asks for
/// it, and goes on to the block length. `reported` is the error that the
/// sequence ends with where the device cannot be selected.
pub open spec fn selection_stage(now: Scene, end: Scene, slot: u8, reported: MciError, r: Result<
    (),
    MciError,
>) -> bool {
    exists|selected: Record, chosen: Result<(), MciError>| #[trigger]
        device_selected(now.record, selected, line_of(now.settings, slot), chosen)
            && match chosen {
            Err(e) => end == (Scene { settings: now.settings, record: selected }) && r == Err::<
                (),
                MciError,
            >(reported),
            Ok(_) => block_length_stage(
                Scene { settings: now.settings, record: selected },
                end,
                r,
            ),
        }
}

/// The stage that raises the speed. The interface is asked whether it runs
/// at high speed; where it cannot say, the sequence ends. Where interface
/// and card both run at high speed the card is asked to switch; a card that
/// takes the switch runs at 52 MHz from then on, and the device is selected
/// anew. Else the sequence goes on to the block length as it is.
pub open spec fn speed_stage(now: Scene, end: Scene, slot: u8, card_capable: bool, r: Result<
    (),
    MciError,
>) -> bool {
    exists|asked: Record, capable: Result<bool, MciError>| #[trigger]
        grown_by(
            now.record,
            asked,
            Exchange { call: Call::HighSpeedCapable, reply: flag_or_failed(capable) },
        ) && match capable {
            Err(_) => end == (Scene { settings: now.settings, record: asked }) && r == Err::<
                (),
                MciError,
            >(MciError::Setup(SetupError::CouldNotCheckIfIsHighSpeed)),
            Ok(capable) => if capable && card_capable {
                exists|switching: Record, took: Result<bool, MciError>| #[trigger]
                    switched(asked, switching, high_speed_argument(), took) && match took {
                        Err(_) => end == (Scene { settings: now.settings, record: switching })
                            && r == Err::<(), MciError>(
                            MciError::Setup(SetupError::CouldNotSetToHighSpeed),
                        ),
                        Ok(took) => selection_stage(
                            Scene {
                                settings: if took {
                                    Settings {
                                        high_speed: true,
                                        clock: 52_000_000,
                                        ..now.settings
                                    }
                                } else {
                                    now.settings
                                },
                                record: switching,
                            },
                            end,
                            slot,
                            MciError::CouldNotSelectDevice,
                            r,
                        ),
                    }
            } else {
                block_length_stage(Scene { settings: now.settings, record: asked }, end, r)
            },
        }
}

/// The stage that selects the device after the bus width was switched, and
/// goes on to the speed.
pub open spec fn widened_stage(now: Scene, end: Scene, slot: u8, card_capable: bool, r: Result<
    (),
    MciError,
>) -> bool {
    exists|selected: Record, chosen: Result<(), MciError>| #[trigger]
        device_selected(now.record, selected, line_of(now.settings, slot), chosen)
            && match chosen {
            Err(_) => end == (Scene { settings: now.settings, record: selected }) && r == Err::<
                (),
                MciError,
            >(MciError::Setup(SetupError::CouldNotSetToHighSpeed)),
            Ok(_) => speed_stage(
                Scene { settings: now.settings, record: selected },
                end,
                slot,
                card_capable,
                r,
            ),
        }
}

/// The stage that widens the bus. The interface is asked for its widest bus;
/// where that has four data lines or more the card is asked to switch to it.
/// A card that takes the switch uses that width from then on; either way the
/// device is selected anew. A narrower interface goes on to the speed as it
/// is.
pub open spec fn width_stage(now: Scene, end: Scene, slot: u8, card_capable: bool, r: Result<
    (),
    MciError,
>) -> bool {
    exists|asked: Record, widest: Result<BusWidth, MciError>| #[trigger]
        grown_by(
            now.record,
            asked,
            Exchange { call: Call::MaxBusWidth { slot }, reply: width_or_failed(widest) },
        ) && match widest {
            Err(e) => end == (Scene { settings: now.settings, record: asked }) && r == Err::<
                (),
                MciError,
            >(e),
            Ok(widest) => if widest.spec_lanes() >= 4 {
                exists|switching: Record, took: Result<bool, MciError>| #[trigger]
                    switched(asked, switching, bus_width_argument(widest), took) && match took {
                        Err(_) => end == (Scene { settings: now.settings, record: switching })
                            && r == Err::<(), MciError>(
                            MciError::Setup(SetupError::CouldNotSetBusWidth),
                        ),
                        Ok(took) => widened_stage(
                            Scene {
                                settings: if took {
                                    Settings { bus_width: widest, ..now.settings }
                                } else {
                                    now.settings
                                },
                                record: switching,
                            },
                            end,
                            slot,
                            card_capable,
                            r,
                        ),
                    }
            } else {
                speed_stage(
                    Scene { settings: now.settings, record: asked },
                    end,
                    slot,
                    card_capable,
                    r,
                )
            },
        }
}

/// The stage that follows the selection of the card. A card of version 4.0
/// or later is asked for its extended card specific data, which tells
/// whether the card runs at 52 MHz and, where the device size is at its
/// maximum, the capacity; then bus width and speed are raised. An older card
/// has the device selected and goes on to the block length.
pub open spec fn extension_stage(now: Scene, end: Scene, slot: u8, r: Result<(), MciError>) -> bool {
    if now.settings.version.spec_is_mmc_4_or_later() {
        exists|loaded: Record, ext: Result<ExtCsd, MciError>| #[trigger]
            ext_csd_loaded(now.record, loaded, ext) && match ext {
                Err(e) => end == (Scene { settings: now.settings, record: loaded }) && r == Err::<
                    (),
                    MciError,
                >(e),
                Ok(ext) => width_stage(
                    Scene {
                        settings: Settings {
                            capacity: if now.settings.csd.field(62, 74) == 0xfff {
                                ext.sector_count
                            } else {
                                now.settings.capacity
                            },
                            ..now.settings
                        },
                        record: loaded,
                    },
                    end,
                    slot,
                    ext.high_speed,
                    r,
                ),
            }
    } else {
        selection_stage(now, end, slot, MciError::CouldNotSelectDevice, r)
    }
}

/// The stage that selects the card, which puts it into the transfer state.
pub open spec fn card_selection_stage(now: Scene, end: Scene, slot: u8, r: Result<
    (),
    MciError,
>) -> bool {
    exists|sent: Record, taken: Result<(), MciError>| #[trigger]
        commanded(
            now.record,
            sent,
            SDMMC_CMD7_SELECT_CARD_CMD,
            addressed(now.settings.rca),
            taken,
        ) && match taken {
            Err(e) => end == (Scene { settings: now.settings, record: sent }) && r == Err::<
                (),
                MciError,
            >(e),
            Ok(_) => extension_stage(Scene { settings: now.settings, record: sent }, end, slot, r),
        }
}

/// The stage that loads the card specific data and decodes it into version,
/// clock and capacity.
pub open spec fn description_stage(now: Scene, end: Scene, slot: u8, r: Result<(), MciError>) -> bool {
    exists|loaded: Record, csd: Result<CsdRegister, MciError>| #[trigger]
        csd_loaded(now.record, loaded, now.settings.rca, csd) && match csd {
            Err(e) => end == (Scene { settings: now.settings, record: loaded }) && r == Err::<
                (),
                MciError,
            >(e),
            Ok(csd) => exists|decoded: Settings| #[trigger]
                mmc_decoded(Settings { csd, ..now.settings }, decoded) && card_selection_stage(
                    Scene { settings: decoded, record: loaded },
                    end,
                    slot,
                    r,
                ),
        }
}

/// The stage that gives the card the relative address 1.
pub open spec fn address_stage(now: Scene, end: Scene, slot: u8, r: Result<(), MciError>) -> bool {
    let addressed_card = Settings { rca: 1, ..now.settings };
    exists|sent: Record, taken: Result<(), MciError>| #[trigger]
        commanded(now.record, sent, MMC_CMD3_SET_RELATIVE_ADDR, addressed(1), taken)
            && match taken {
            Err(e) => end == (Scene { settings: addressed_card, record: sent }) && r == Err::<
                (),
                MciError,
            >(e),
            Ok(_) => description_stage(
                Scene { settings: addressed_card, record: sent },
                end,
                slot,
                r,
            ),
        }
}

/// The stage that puts the card into the identification mode. The
/// identification itself is not used.
pub open spec fn identification_stage(now: Scene, end: Scene, slot: u8, r: Result<
    (),
    MciError,
>) -> bool {
    exists|sent: Record, taken: Result<(), MciError>| #[trigger]
        commanded(now.record, sent, SDMMC_CMD2_ALL_SEND_CID, 0, taken) && match taken {
            Err(e) => end == (Scene { settings: now.settings, record: sent }) && r == Err::<
                (),
                MciError,
            >(e),
            Ok(_) => address_stage(Scene { settings: now.settings, record: sent }, end, slot, r),
        }
}

/// The stage that polls the operating conditions until the card is powered
/// up. A card that reports sector access has high capacity.
pub open spec fn conditions_stage(now: Scene, end: Scene, slot: u8, r: Result<(), MciError>) -> bool {
    exists|polled: Record, sector: Result<bool, MciError>| #[trigger]
        mmc_probed(now.record, polled, sector) && match sector {
            Err(e) => end == (Scene { settings: now.settings, record: polled }) && r == Err::<
                (),
                MciError,
            >(e),
            Ok(sector) => identification_stage(
                Scene {
                    settings: if sector {
                        Settings {
                            card_type: Type(with_bit8(now.settings.card_type.0, 4, true)),
                            ..now.settings
                        }
                    } else {
                        now.settings
                    },
                    record: polled,
                },
                end,
                slot,
                r,
            ),
        }
}

/// The initialisation was run, and `r` is its outcome. The stages are gone
/// through in their order; a card whose initialisation fails is unusable
/// from then on.
pub open spec fn installed(start: Scene, end: Scene, slot: u8, r: Result<(), MciError>) -> bool {
    exists|tried: Scene| #[trigger]
        reset_stage(start, tried, slot, r) && end == (if r is Ok {
            tried
        } else {
            Scene {
                settings: Settings { state: State::Unusable, ..tried.settings },
                record: tried.record,
            }
        })
}

/// The first stage: the reset of all cards to the idle state.
pub open spec fn reset_stage(start: Scene, end: Scene, slot: u8, r: Result<(), MciError>) -> bool {
    exists|sent: Record, taken: Result<(), MciError>| #[trigger]
        commanded(start.record, sent, SDMMC_MCI_CMD0_GO_IDLE_STATE, 0, taken) && match taken {
            Err(e) => end == (Scene { settings: start.settings, record: sent }) && r == Err::<
                (),
                MciError,
            >(e),
            Ok(_) => conditions_stage(
                Scene { settings: start.settings, record: sent },
                end,
                slot,
                r,
            ),
        }
}

/// The scene that the arguments of a stage stand for.
pub open spec fn scene(settings: Settings, record: Record) -> Scene {
    Scene { settings, record }
}

fn block_length<B: SdMmcBus>(bus: &mut B, record: &mut Ghost<Record>, settings: &mut Settings) -> (r:
    Result<(), MciError>)
    ensures
        block_length_stage(
            scene(*old(settings), old(record)@),
            scene(*final(settings), final(record)@),
            r,
        ),
{
    let set = set_block_length(bus, record);
    proof {
        lemma_done(set);
    }
    if set.is_ok() {
        settings.state = State::Ready;
    }
    set
}

fn selection<B: SdMmcBus>(
    bus: &mut B,
    record: &mut Ghost<Record>,
    settings: &mut Settings,
    slot: u8,
    reported: MciError,
) -> (r: Result<(), MciError>)
    ensures
        selection_stage(
            scene(*old(settings), old(record)@),
            scene(*final(settings), final(record)@),
            slot,
            reported,
            r,
        ),
{
    let ghost now = scene(*settings, record@);
    let line = Line {
        slot,
        clock: settings.clock,
        bus_width: settings.bus_width,
        high_speed: settings.high_speed,
    };
    let chosen = select_device(bus, record, &line);
    assert(device_selected(now.record, record@, line_of(now.settings, slot), chosen));
    if chosen.is_err() {
        return Err(reported);
    }
    block_length(bus, record, settings)
}

fn speed<B: SdMmcBus>(
    bus: &mut B,
    record: &mut Ghost<Record>,
    settings: &mut Settings,
    slot: u8,
    card_capable: bool,
) -> (r: Result<(), MciError>)
    ensures
        speed_stage(
            scene(*old(settings), old(record)@),
            scene(*final(settings), final(record)@),
            slot,
            card_capable,
            r,
        ),
{
    let ghost now = scene(*settings, record@);
    let asked = high_speed_capable(bus, record);
    assert(grown_by(
        now.record,
        record@,
        Exchange { call: Call::HighSpeedCapable, reply: flag_or_failed(asked) },
    ));
    let capable = match asked {
        Err(_) => {
            return Err(MciError::Setup(SetupError::CouldNotCheckIfIsHighSpeed));
        },
        Ok(capable) => capable,
    };
    if capable && card_capable {
        let arg = high_speed_switch();
        let took = match switch(bus, record, arg.val) {
            Err(_) => {
                return Err(MciError::Setup(SetupError::CouldNotSetToHighSpeed));
            },
            Ok(took) => took,
        };
        if took {
            settings.high_speed = true;
            settings.clock = 52_000_000u32;
        }
        selection(bus, record, settings, slot, MciError::CouldNotSelectDevice)
    } else {
        block_length(bus, record, settings)
    }
}

fn widened<B: SdMmcBus>(
    bus: &mut B,
    record: &mut Ghost<Record>,
    settings: &mut Settings,
    slot: u8,
    card_capable: bool,
) -> (r: Result<(), MciError>)
    ensures
        widened_stage(
            scene(*old(settings), old(record)@),
            scene(*final(settings), final(record)@),
            slot,
            card_capable,
            r,
        ),
{
    let ghost now = scene(*settings, record@);
    let line = Line {
        slot,
        clock: settings.clock,
        bus_width: settings.bus_width,
        high_speed: settings.high_speed,
    };
    let chosen = select_device(bus, record, &line);
    assert(device_selected(now.record, record@, line_of(now.settings, slot), chosen));
    if chosen.is_err() {
        return Err(MciError::Setup(SetupError::CouldNotSetToHighSpeed));
    }
    speed(bus, record, settings, slot, card_capable)
}

fn width<B: SdMmcBus>(
    bus: &mut B,
    record: &mut Ghost<Record>,
    settings: &mut Settings,
    slot: u8,
    card_capable: bool,
) -> (r: Result<(), MciError>)
    ensures
        width_stage(
            scene(*old(settings), old(record)@),
            scene(*final(settings), final(record)@),
            slot,
            card_capable,
            r,
        ),
{
    let ghost now = scene(*settings, record@);
    let asked = max_bus_width(bus, record, slot);
    assert(grown_by(
        now.record,
        record@,
        Exchange { call: Call::MaxBusWidth { slot }, reply: width_or_failed(asked) },
    ));
    let widest = match asked {
        Err(e) => {
            return Err(e);
        },
        Ok(widest) => widest,
    };
    if widest.lanes() >= 4 {
        let arg = bus_width_switch(&widest);
        let took = match switch(bus, record, arg.val) {
            Err(_) => {
                return Err(MciError::Setup(SetupError::CouldNotSetBusWidth));
            },
            Ok(took) => took,
        };
        if took {
            settings.bus_width = widest;
        }
        widened(bus, record, settings, slot, card_capable)
    } else {
        speed(bus, record, settings, slot, card_capable)
    }
}

fn extension<B: SdMmcBus>(
    bus: &mut B,
    record: &mut Ghost<Record>,
    settings: &mut Settings,
    slot: u8,
) -> (r: Result<(), MciError>)
    ensures
        extension_stage(
            scene(*old(settings), old(record)@),
            scene(*final(settings), final(record)@),
            slot,
            r,
        ),
{
    let ghost now = scene(*settings, record@);
    if settings.version.is_mmc_4_or_later() {
        let loaded = load_ext_csd(bus, record);
        assert(ext_csd_loaded(now.record, record@, loaded));
        let ext = match loaded {
            Err(e) => {
                return Err(e);
            },
            Ok(ext) => ext,
        };
        if settings.csd.card_size() == 0xFFF {
            settings.capacity = ext.sector_count;
        }
        width(bus, record, settings, slot, ext.high_speed)
    } else {
        selection(bus, record, settings, slot, MciError::CouldNotSelectDevice)
    }
}

fn card_selection<B: SdMmcBus>(
    bus: &mut B,
    record: &mut Ghost<Record>,
    settings: &mut Settings,
    slot: u8,
) -> (r: Result<(), MciError>)
    ensures
        card_selection_stage(
            scene(*old(settings), old(record)@),
            scene(*final(settings), final(record)@),
            slot,
            r,
        ),
{
    let ghost now = scene(*settings, record@);
    let taken = command(bus, record, SDMMC_CMD7_SELECT_CARD_CMD, (settings.rca as u32) << 16);
    assert(commanded(
        now.record,
        record@,
        SDMMC_CMD7_SELECT_CARD_CMD,
        addressed(now.settings.rca),
        taken,
    ));
    if let Err(e) = taken {
        return Err(e);
    }
    extension(bus, record, settings, slot)
}

fn description<B: SdMmcBus>(
    bus: &mut B,
    record: &mut Ghost<Record>,
    settings: &mut Settings,
    slot: u8,
) -> (r: Result<(), MciError>)
    ensures
        description_stage(
            scene(*old(settings), old(record)@),
            scene(*final(settings), final(record)@),
            slot,
            r,
        ),
{
    let ghost now = scene(*settings, record@);
    let loaded = load_csd(bus, record, settings.rca);
    assert(csd_loaded(now.record, record@, now.settings.rca, loaded));
    let csd = match loaded {
        Err(e) => {
            return Err(e);
        },
        Ok(csd) => csd,
    };
    settings.csd = csd;
    decode_mmc(settings);
    assert(mmc_decoded(Settings { csd, ..now.settings }, *settings));
    card_selection(bus, record, settings, slot)
}

fn address<B: SdMmcBus>(
    bus: &mut B,
    record: &mut Ghost<Record>,
    settings: &mut Settings,
    slot: u8,
) -> (r: Result<(), MciError>)
    ensures
        address_stage(
            scene(*old(settings), old(record)@),
            scene(*final(settings), final(record)@),
            slot,
            r,
        ),
{
    let ghost now = scene(*settings, record@);
    settings.rca = 1;
    let taken = command(bus, record, MMC_CMD3_SET_RELATIVE_ADDR, (settings.rca as u32) << 16);
    assert(commanded(now.record, record@, MMC_CMD3_SET_RELATIVE_ADDR, addressed(1), taken));
    if let Err(e) = taken {
        return Err(e);
    }
    description(bus, record, settings, slot)
}

fn identification<B: SdMmcBus>(
    bus: &mut B,
    record: &mut Ghost<Record>,
    settings: &mut Settings,
    slot: u8,
) -> (r: Result<(), MciError>)
    ensures
        identification_stage(
            scene(*old(settings), old(record)@),
            scene(*final(settings), final(record)@),
            slot,
            r,
        ),
{
    let ghost now = scene(*settings, record@);
    let taken = command(bus, record, SDMMC_CMD2_ALL_SEND_CID, 0);
    assert(commanded(now.record, record@, SDMMC_CMD2_ALL_SEND_CID, 0, taken));
    if let Err(e) = taken {
        return Err(e);
    }
    address(bus, record, settings, slot)
}

fn conditions<B: SdMmcBus>(
    bus: &mut B,
    record: &mut Ghost<Record>,
    settings: &mut Settings,
    slot: u8,
) -> (r: Result<(), MciError>)
    ensures
        conditions_stage(
            scene(*old(settings), old(record)@),
            scene(*final(settings), final(record)@),
            slot,
            r,
        ),
{
    let ghost now = scene(*settings, record@);
    let probed = probe(bus, record);
    assert(mmc_probed(now.record, record@, probed));
    let sector = match probed {
        Err(e) => {
            return Err(e);
        },
        Ok(sector) => sector,
    };
    if sector {
        settings.card_type.set_high_capacity(true);
    }
    identification(bus, record, settings, slot)
}

fn reset<B: SdMmcBus>(
    bus: &mut B,
    record: &mut Ghost<Record>,
    settings: &mut Settings,
    slot: u8,
) -> (r: Result<(), MciError>)
    ensures
        reset_stage(
            scene(*old(settings), old(record)@),
            scene(*final(settings), final(record)@),
            slot,
            r,
        ),
{
    let ghost now = scene(*settings, record@);
    let taken = command(bus, record, SDMMC_MCI_CMD0_GO_IDLE_STATE, 0);
    assert(commanded(now.record, record@, SDMMC_MCI_CMD0_GO_IDLE_STATE, 0, taken));
    if let Err(e) = taken {
        return Err(e);
    }
    conditions(bus, record, settings, slot)
}

/// Initialises an MMC: runs the identification, loads and decodes the card
/// specific data, puts the card into the transfer state, and raises bus
/// width and speed as far as card and interface allow. The card is ready
/// where all of this went through, and unusable where it did not.
pub fn install<B: SdMmcBus>(
    bus: &mut B,
    record: &mut Ghost<Record>,
    settings: &mut Settings,
    slot: u8,
) -> (r: Result<(), MciError>)
    ensures
        installed(
            scene(*old(settings), old(record)@),
            scene(*final(settings), final(record)@),
            slot,
            r,
        ),
{
    let ghost start = scene(*settings, record@);
    let r = reset(bus, record, settings, slot);
    let ghost tried = scene(*settings, record@);
    assert(reset_stage(start, tried, slot, r));
    if r.is_err() {
        settings.state = State::Unusable;
    }
    r
}

/// The interface was asked for its widest bus for `slot`, and said `width`.
pub open spec fn asked_widest(record: Record, slot: u8, width: BusWidth) -> bool {
    exists|i: int|
        0 <= i < record.len() && (#[trigger] record[i]) == (Exchange {
            call: Call::MaxBusWidth { slot },
            reply: crate::bus::recorded::Reply::Width(width),
        })
}

/// The record ends with a setting of the block length that went through: the
/// command with 512 as its argument, up to ten times, of which only the last
/// was taken.
pub open spec fn ends_with_block_length(record: Record) -> bool {
    exists|before: Record| #[trigger] block_length_set(before, record, Ok::<(), MciError>(()))
}

/// What holds of a sequence that went through from one of its last stages
/// on: the card is ready and addressed as before, the record was continued
/// and ends with the setting of the block length, the bus width is as
/// before, and a card that is at high speed now and was not before runs at
/// 52 MHz.
pub open spec fn settled(now: Scene, end: Scene) -> bool {
    &&& end.settings.state == State::Ready
    &&& end.settings.rca == now.settings.rca
    &&& end.settings.bus_width == now.settings.bus_width
    &&& continues(now.record, end.record)
    &&& ends_with_block_length(end.record)
    &&& end.settings.high_speed != now.settings.high_speed ==> end.settings.high_speed
        && end.settings.clock == 52_000_000
}

/// What holds of a sequence that went through: the card is ready and
/// addressed as before, the record was continued and ends with the setting
/// of the block length, a card that is at high speed now and was not before
/// runs at 52 MHz, and a bus width that is not as before is the widest that
/// the interface said it has.
pub open spec fn went_through(now: Scene, end: Scene, slot: u8) -> bool {
    &&& end.settings.state == State::Ready
    &&& end.settings.rca == now.settings.rca
    &&& continues(now.record, end.record)
    &&& ends_with_block_length(end.record)
    &&& end.settings.high_speed != now.settings.high_speed ==> end.settings.high_speed
        && end.settings.clock == 52_000_000
    &&& end.settings.bus_width != now.settings.bus_width ==> asked_widest(
        end.record,
        slot,
        end.settings.bus_width,
    )
}

/// The scene with the relative address 1 given to the card.
pub open spec fn with_address(now: Scene) -> Scene {
    Scene { settings: Settings { rca: 1, ..now.settings }, record: now.record }
}

/// Facts about records that the laws of the initialisation rest on: an
/// exchange that was added continues the record and stands at its end,
/// continuation is transitive, and what the interface said stays in the
/// record.
pub proof fn lemma_record_facts()
    ensures
        forall|before: Record, after: Record, exchange: Exchange| #[trigger]
            grown_by(before, after, exchange) ==> continues(before, after) && after.len()
                == before.len() + 1 && after[after.len() - 1] == exchange,
        forall|a: Record, b: Record, c: Record|
            #![trigger continues(a, b), continues(b, c)]
            continues(a, b) && continues(b, c) ==> continues(a, c),
        forall|earlier: Record, later: Record, slot: u8, width: BusWidth|
            #![trigger asked_widest(earlier, slot, width), continues(earlier, later)]
            asked_widest(earlier, slot, width) && continues(earlier, later) ==> asked_widest(
                later,
                slot,
                width,
            ),
{
    assert forall|before: Record, after: Record, exchange: Exchange| #[trigger]
        grown_by(before, after, exchange) implies continues(before, after) && after.len()
        == before.len() + 1 && after[after.len() - 1] == exchange by {
        crate::bus::recorded::lemma_nothing_added(before);
    }
    assert forall|a: Record, b: Record, c: Record|
        #![trigger continues(a, b), continues(b, c)]
        continues(a, b) && continues(b, c) implies continues(a, c) by {
        crate::bus::recorded::lemma_added_in_two_steps(a, b, c);
    }
    assert forall|earlier: Record, later: Record, slot: u8, width: BusWidth|
        #![trigger asked_widest(earlier, slot, width), continues(earlier, later)]
        asked_widest(earlier, slot, width) && continues(earlier, later) implies asked_widest(
        later,
        slot,
        width,
    ) by {
        let i = choose|i: int|
            0 <= i < earlier.len() && (#[trigger] earlier[i]) == (Exchange {
                call: Call::MaxBusWidth { slot },
                reply: crate::bus::recorded::Reply::Width(width),
            });
        assert(later.subrange(0, earlier.len() as int)[i] == later[i]);
    }
}

/// A sequence that goes through from this stage on settles the card.
pub proof fn lemma_block_length_goes_through()
    ensures
        forall|now: Scene, end: Scene, r: Result<(), MciError>|
            #[trigger] block_length_stage(now, end, r) && r is Ok ==> settled(now, end),
{
    lemma_record_facts();
    assert forall|now: Scene, end: Scene, r: Result<(), MciError>|
        #[trigger] block_length_stage(now, end, r) && r is Ok implies settled(now, end) by {
        lemma_done(r);
    }
}

/// A sequence that goes through from this stage on settles the card.
pub proof fn lemma_selection_goes_through()
    ensures
        forall|now: Scene, end: Scene, slot: u8, reported: MciError, r: Result<(), MciError>|
            #[trigger] selection_stage(now, end, slot, reported, r) && r is Ok ==> settled(now, end),
{
    lemma_record_facts();
    lemma_block_length_goes_through();
    assert forall|now: Scene, end: Scene, slot: u8, reported: MciError, r: Result<(), MciError>|
        #[trigger] selection_stage(now, end, slot, reported, r) && r is Ok implies settled(now, end) by {
        lemma_done(r);
    }
}

/// A sequence that goes through from this stage on settles the card.
pub proof fn lemma_speed_goes_through()
    ensures
        forall|now: Scene, end: Scene, slot: u8, card_capable: bool, r: Result<(), MciError>|
            #[trigger] speed_stage(now, end, slot, card_capable, r) && r is Ok ==> settled(now, end),
{
    lemma_record_facts();
    lemma_selection_goes_through();
    lemma_block_length_goes_through();
    assert forall|now: Scene, end: Scene, slot: u8, card_capable: bool, r: Result<(), MciError>|
        #[trigger] speed_stage(now, end, slot, card_capable, r) && r is Ok implies settled(now, end) by {
        lemma_done(r);
    }
}

/// A sequence that goes through from this stage on settles the card.
pub proof fn lemma_widened_goes_through()
    ensures
        forall|now: Scene, end: Scene, slot: u8, card_capable: bool, r: Result<(), MciError>|
            #[trigger] widened_stage(now, end, slot, card_capable, r) && r is Ok ==> settled(now, end),
{
    lemma_record_facts();
    lemma_speed_goes_through();
    assert forall|now: Scene, end: Scene, slot: u8, card_capable: bool, r: Result<(), MciError>|
        #[trigger] widened_stage(now, end, slot, card_capable, r) && r is Ok implies settled(now, end) by {
        lemma_done(r);
    }
}

/// A sequence that goes through from this stage on has gone through as the
/// stages say.
pub proof fn lemma_width_goes_through()
    ensures
        forall|now: Scene, end: Scene, slot: u8, card_capable: bool, r: Result<(), MciError>|
            #[trigger] width_stage(now, end, slot, card_capable, r) && r is Ok ==> went_through(now, end, slot),
{
    lemma_record_facts();
    lemma_widened_goes_through();
    lemma_speed_goes_through();
    assert forall|now: Scene, end: Scene, slot: u8, card_capable: bool, r: Result<(), MciError>|
        #[trigger] width_stage(now, end, slot, card_capable, r) && r is Ok implies went_through(now, end, slot) by {
        lemma_done(r);
    }
}

/// A sequence that goes through from this stage on has gone through as the
/// stages say.
pub proof fn lemma_extension_goes_through()
    ensures
        forall|now: Scene, end: Scene, slot: u8, r: Result<(), MciError>|
            #[trigger] extension_stage(now, end, slot, r) && r is Ok ==> went_through(now, end, slot),
{
    lemma_record_facts();
    lemma_width_goes_through();
    lemma_selection_goes_through();
    assert forall|now: Scene, end: Scene, slot: u8, r: Result<(), MciError>|
        #[trigger] extension_stage(now, end, slot, r) && r is Ok implies went_through(now, end, slot) by {
        lemma_done(r);
    }
}

/// A sequence that goes through from this stage on has gone through as the
/// stages say.
pub proof fn lemma_card_selection_goes_through()
    ensures
        forall|now: Scene, end: Scene, slot: u8, r: Result<(), MciError>|
            #[trigger] card_selection_stage(now, end, slot, r) && r is Ok ==> went_through(now, end, slot),
{
    lemma_record_facts();
    lemma_extension_goes_through();
    assert forall|now: Scene, end: Scene, slot: u8, r: Result<(), MciError>|
        #[trigger] card_selection_stage(now, end, slot, r) && r is Ok implies went_through(now, end, slot) by {
        lemma_done(r);
    }
}

/// A sequence that goes through from this stage on has gone through as the
/// stages say.
pub proof fn lemma_description_goes_through()
    ensures
        forall|now: Scene, end: Scene, slot: u8, r: Result<(), MciError>|
            #[trigger] description_stage(now, end, slot, r) && r is Ok ==> went_through(now, end, slot),
{
    lemma_record_facts();
    lemma_card_selection_goes_through();
    assert forall|now: Scene, end: Scene, slot: u8, r: Result<(), MciError>|
        #[trigger] description_stage(now, end, slot, r) && r is Ok implies went_through(now, end, slot) by {
        lemma_done(r);
    }
}

/// A sequence that goes through from this stage on has gone through as the
/// stages say.
pub proof fn lemma_address_goes_through()
    ensures
        forall|now: Scene, end: Scene, slot: u8, r: Result<(), MciError>|
            #[trigger] address_stage(now, end, slot, r) && r is Ok ==> went_through(
                with_address(now),
                end,
                slot,
            ),
{
    lemma_record_facts();
    lemma_description_goes_through();
    assert forall|now: Scene, end: Scene, slot: u8, r: Result<(), MciError>|
        #[trigger] address_stage(now, end, slot, r) && r is Ok implies went_through(
        with_address(now),
        end,
        slot,
    ) by {
        lemma_done(r);
    }
}

/// A sequence that goes through from this stage on has gone through as the
/// stages say.
pub proof fn lemma_identification_goes_through()
    ensures
        forall|now: Scene, end: Scene, slot: u8, r: Result<(), MciError>|
            #[trigger] identification_stage(now, end, slot, r) && r is Ok ==> went_through(
                with_address(now),
                end,
                slot,
            ),
{
    lemma_record_facts();
    lemma_address_goes_through();
    assert forall|now: Scene, end: Scene, slot: u8, r: Result<(), MciError>|
        #[trigger] identification_stage(now, end, slot, r) && r is Ok implies went_through(
        with_address(now),
        end,
        slot,
    ) by {
        lemma_done(r);
    }
}

/// A sequence that goes through from this stage on has gone through as the
/// stages say.
pub proof fn lemma_conditions_goes_through()
    ensures
        forall|now: Scene, end: Scene, slot: u8, r: Result<(), MciError>|
            #[trigger] conditions_stage(now, end, slot, r) && r is Ok ==> went_through(
                with_address(now),
                end,
                slot,
            ),
{
    lemma_record_facts();
    lemma_identification_goes_through();
    assert forall|now: Scene, end: Scene, slot: u8, r: Result<(), MciError>|
        #[trigger] conditions_stage(now, end, slot, r) && r is Ok implies went_through(
        with_address(now),
        end,
        slot,
    ) by {
        lemma_done(r);
    }
}

/// A sequence that goes through from this stage on has gone through as the
/// stages say.
pub proof fn lemma_reset_goes_through()
    ensures
        forall|now: Scene, end: Scene, slot: u8, r: Result<(), MciError>|
            #[trigger] reset_stage(now, end, slot, r) && r is Ok ==> went_through(
                with_address(now),
                end,
                slot,
            ),
{
    lemma_record_facts();
    lemma_conditions_goes_through();
    assert forall|now: Scene, end: Scene, slot: u8, r: Result<(), MciError>|
        #[trigger] reset_stage(now, end, slot, r) && r is Ok implies went_through(
        with_address(now),
        end,
        slot,
    ) by {
        lemma_done(r);
    }
}

/// An initialisation that goes through leaves the card ready, with the
/// relative address 1. The record ends with the block length of 512 bytes
/// set, by a command that was repeated up to ten times. A card that is at
/// high speed now and was not before runs at 52 MHz, and a bus width that
/// is not as before is the widest that the interface said it has. An
/// initialisation that fails leaves the card unusable.
pub proof fn lemma_installed_card(start: Scene, end: Scene, slot: u8, r: Result<(), MciError>)
    requires
        installed(start, end, slot, r),
    ensures
        r is Ok ==> end.settings.state == State::Ready && end.settings.rca == 1,
        r is Ok ==> continues(start.record, end.record) && ends_with_block_length(end.record),
        r is Ok && end.settings.high_speed && !start.settings.high_speed ==> end.settings.clock
            == 52_000_000,
        r is Ok && end.settings.bus_width != start.settings.bus_width ==> asked_widest(
            end.record,
            slot,
            end.settings.bus_width,
        ),
        r is Err ==> end.settings.state == State::Unusable,
{
    lemma_reset_goes_through();
}

} // verus!
