//! What a card takes from the answers to its commands: each function runs a
//! command sequence and notes in the settings of the card what came of it.

use vstd::prelude::*;
use crate::bits::{bits8, with_bit8};
use crate::bus::recorded::Record;
use crate::bus::{Adtc, Bus, Read, SdMmcBus};
use crate::card::card::{Settings, Type};
use crate::command_arguments::mmc::{
    bus_width_argument, bus_width_switch, high_speed_argument, high_speed_switch, BusWidth,
};
use crate::decode::{sd_version, version_of};
use crate::error::MciError;
use crate::protocol::install::{scene, Scene};
use crate::protocol::mmc::{
    csd_loaded, ext_csd_loaded, load_csd, load_ext_csd, mmc_probed, probe, switch, switched,
    ExtCsd,
};
use crate::protocol::sd::{
    high_speed_switched, load_scr, scr_loaded, sd_probed, set_wide_bus, switch_to_high_speed,
    wide_bus_set,
};
use crate::registers::csd::CsdRegister;
use crate::registers::sd::scr::ScrRegister;
use crate::sd::sd_physical_specification::SdPhysicalSpecification;

verus! {

/// The settings of a card that was found to have high capacity.
pub open spec fn with_high_capacity(settings: Settings) -> Settings {
    Settings { card_type: Type(with_bit8(settings.card_type.0, 4, true)), ..settings }
}

/// An SD card was asked to use four data lines, and the width is noted where
/// the card took both commands.
pub open spec fn wide_bus_taken(start: Scene, end: Scene, r: Result<(), MciError>) -> bool {
    &&& wide_bus_set(start.record, end.record, start.settings.rca, r)
    &&& end.settings == (if r is Ok {
        Settings { bus_width: BusWidth::_4BIT, ..start.settings }
    } else {
        start.settings
    })
}

/// Asks an SD card to use four data lines.
pub fn take_wide_bus<B: Bus>(bus: &mut B, record: &mut Ghost<Record>, settings: &mut Settings) -> (r:
    Result<(), MciError>)
    ensures
        wide_bus_taken(
            scene(*old(settings), old(record)@),
            scene(*final(settings), final(record)@),
            r,
        ),
{
    let set = set_wide_bus(bus, record, settings.rca);
    if set.is_ok() {
        settings.bus_width = BusWidth::_4BIT;
    }
    set
}

/// The card specific data was asked for over the native interface, and the
/// register is noted where the response came.
pub open spec fn csd_taken(start: Scene, end: Scene, r: Result<(), MciError>) -> bool {
    &&& csd_loaded(
        start.record,
        end.record,
        start.settings.rca,
        match r {
            Ok(_) => Ok::<CsdRegister, MciError>(end.settings.csd),
            Err(e) => Err::<CsdRegister, MciError>(e),
        },
    )
    &&& end.settings == (Settings { csd: end.settings.csd, ..start.settings })
    &&& r is Err ==> end.settings == start.settings
}

/// Loads the card specific data from the 128-bit response of the card.
pub fn take_csd<B: SdMmcBus>(bus: &mut B, record: &mut Ghost<Record>, settings: &mut Settings) -> (r:
    Result<(), MciError>)
    ensures
        csd_taken(
            scene(*old(settings), old(record)@),
            scene(*final(settings), final(record)@),
            r,
        ),
{
    match load_csd(bus, record, settings.rca) {
        Err(e) => Err(e),
        Ok(csd) => {
            settings.csd = csd;
            Ok(())
        },
    }
}

/// An MMC was asked to set its bus width to `width`, and the width is noted
/// where the card took the switch. A card that refuses keeps its width and
/// the answer is `false`.
pub open spec fn bus_width_taken(start: Scene, end: Scene, width: BusWidth, r: Result<
    bool,
    MciError,
>) -> bool {
    &&& switched(start.record, end.record, bus_width_argument(width), r)
    &&& end.settings == (if r == Ok::<bool, MciError>(true) {
        Settings { bus_width: width, ..start.settings }
    } else {
        start.settings
    })
}

/// Asks an MMC to set its bus width.
pub fn take_bus_width<B: Bus>(
    bus: &mut B,
    record: &mut Ghost<Record>,
    settings: &mut Settings,
    width: &BusWidth,
) -> (r: Result<bool, MciError>)
    ensures
        bus_width_taken(
            scene(*old(settings), old(record)@),
            scene(*final(settings), final(record)@),
            *width,
            r,
        ),
{
    let arg = bus_width_switch(width);
    match switch(bus, record, arg.val) {
        Err(e) => Err(e),
        Ok(false) => Ok(false),
        Ok(true) => {
            settings.bus_width = *width;
            Ok(true)
        },
    }
}

/// An MMC was asked to turn high-speed timing on, and the speed and the clock
/// of 52 MHz are noted where the card took the switch. A card that refuses
/// stays as it is and the answer is `false`.
pub open spec fn mmc_high_speed_taken(start: Scene, end: Scene, r: Result<bool, MciError>) -> bool {
    &&& switched(start.record, end.record, high_speed_argument(), r)
    &&& end.settings == (if r == Ok::<bool, MciError>(true) {
        Settings { high_speed: true, clock: 52_000_000, ..start.settings }
    } else {
        start.settings
    })
}

/// Asks an MMC to turn high-speed timing on.
pub fn take_mmc_high_speed<B: Bus>(
    bus: &mut B,
    record: &mut Ghost<Record>,
    settings: &mut Settings,
) -> (r: Result<bool, MciError>)
    ensures
        mmc_high_speed_taken(
            scene(*old(settings), old(record)@),
            scene(*final(settings), final(record)@),
            r,
        ),
{
    let arg = high_speed_switch();
    match switch(bus, record, arg.val) {
        Err(e) => Err(e),
        Ok(false) => Ok(false),
        Ok(true) => {
            settings.high_speed = true;
            settings.clock = 52_000_000u32;
            Ok(true)
        },
    }
}

/// The extended card specific data was read, and the card took from it what
/// it says: `r` tells whether the card runs at 52 MHz, and the sector count
/// is the capacity where the card specific data holds the maximum device
/// size. After a failure the card is as it was.
pub open spec fn ext_csd_taken(start: Scene, end: Scene, r: Result<bool, MciError>) -> bool {
    match r {
        Err(e) => ext_csd_loaded(start.record, end.record, Err::<ExtCsd, MciError>(e))
            && end.settings == start.settings,
        Ok(high_speed) => exists|ext: ExtCsd| #[trigger]
            ext_csd_loaded(start.record, end.record, Ok::<ExtCsd, MciError>(ext)) && high_speed
                == ext.high_speed && end.settings == (Settings {
                capacity: if start.settings.csd.field(62, 74) == 0xfff {
                    ext.sector_count
                } else {
                    start.settings.capacity
                },
                ..start.settings
            }),
    }
}

/// Reads the extended card specific data.
pub fn take_ext_csd<B: Adtc + Read>(
    bus: &mut B,
    record: &mut Ghost<Record>,
    settings: &mut Settings,
) -> (r: Result<bool, MciError>)
    ensures
        ext_csd_taken(
            scene(*old(settings), old(record)@),
            scene(*final(settings), final(record)@),
            r,
        ),
{
    let ghost start = scene(*settings, record@);
    let loaded = load_ext_csd(bus, record);
    let r = match loaded {
        Err(e) => Err(e),
        Ok(ext) => {
            if settings.csd.card_size() == 0xFFF {
                settings.capacity = ext.sector_count;
            }
            Ok(ext.high_speed)
        },
    };
    proof {
        let end = scene(*settings, record@);
        assert(ext_csd_loaded(start.record, end.record, loaded));
    }
    r
}

/// An MMC was polled for its operating conditions, and high capacity is
/// noted where the card reports sector access.
pub open spec fn mmc_conditions_taken(start: Scene, end: Scene, r: Result<(), MciError>) -> bool {
    exists|sector: Result<bool, MciError>| #[trigger]
        mmc_probed(start.record, end.record, sector) && match sector {
            Err(e) => r == Err::<(), MciError>(e) && end.settings == start.settings,
            Ok(sector) => r is Ok && end.settings == (if sector {
                with_high_capacity(start.settings)
            } else {
                start.settings
            }),
        }
}

/// Polls an MMC for its operating conditions.
pub fn take_mmc_conditions<B: Bus>(
    bus: &mut B,
    record: &mut Ghost<Record>,
    settings: &mut Settings,
) -> (r: Result<(), MciError>)
    ensures
        mmc_conditions_taken(
            scene(*old(settings), old(record)@),
            scene(*final(settings), final(record)@),
            r,
        ),
{
    let ghost start = scene(*settings, record@);
    let probed = probe(bus, record);
    let r = match probed {
        Err(e) => Err(e),
        Ok(sector) => {
            if sector {
                settings.card_type.set_high_capacity(true);
            }
            Ok(())
        },
    };
    proof {
        let end = scene(*settings, record@);
        assert(mmc_probed(start.record, end.record, probed));
    }
    r
}

/// An SD card was polled for its operating conditions, and high capacity is
/// noted where the card reports it.
pub open spec fn sd_conditions_taken(start: Scene, end: Scene, v2: bool, r: Result<
    (),
    MciError,
>) -> bool {
    exists|capacity: Result<bool, MciError>| #[trigger]
        sd_probed(start.record, end.record, v2, capacity) && match capacity {
            Err(e) => r == Err::<(), MciError>(e) && end.settings == start.settings,
            Ok(high) => r is Ok && end.settings == (if high {
                with_high_capacity(start.settings)
            } else {
                start.settings
            }),
        }
}

/// Polls an SD card for its operating conditions.
pub fn take_sd_conditions<B: Bus>(
    bus: &mut B,
    record: &mut Ghost<Record>,
    settings: &mut Settings,
    v2: bool,
) -> (r: Result<(), MciError>)
    ensures
        sd_conditions_taken(
            scene(*old(settings), old(record)@),
            scene(*final(settings), final(record)@),
            v2,
            r,
        ),
{
    let ghost start = scene(*settings, record@);
    let probed = crate::protocol::sd::probe(bus, record, v2);
    let r = match probed {
        Err(e) => Err(e),
        Ok(high) => {
            if high {
                settings.card_type.set_high_capacity(true);
            }
            Ok(())
        },
    };
    proof {
        let end = scene(*settings, record@);
        assert(sd_probed(start.record, end.record, v2, probed));
    }
    r
}

/// An SD card was asked to switch to high speed, and the speed and the
/// doubled clock are noted where the card was switched.
pub open spec fn sd_high_speed_taken(start: Scene, end: Scene, r: Result<bool, MciError>) -> bool {
    &&& high_speed_switched(start.record, end.record, r)
    &&& if r == Ok::<bool, MciError>(true) {
        end.settings == (Settings {
            high_speed: true,
            clock: end.settings.clock,
            ..start.settings
        }) && end.settings.clock == 2 * start.settings.clock
    } else {
        end.settings == start.settings
    }
}

/// Asks an SD card to switch to high speed.
pub fn take_sd_high_speed<B: Bus + Adtc + Read>(
    bus: &mut B,
    record: &mut Ghost<Record>,
    settings: &mut Settings,
) -> (r: Result<bool, MciError>)
    requires
        2 * old(settings).clock <= u32::MAX,
    ensures
        sd_high_speed_taken(
            scene(*old(settings), old(record)@),
            scene(*final(settings), final(record)@),
            r,
        ),
{
    match switch_to_high_speed(bus, record) {
        Err(e) => Err(e),
        Ok(false) => Ok(false),
        Ok(true) => {
            settings.high_speed = true;
            settings.clock = settings.clock * 2;
            Ok(true)
        },
    }
}

/// The version that the SD configuration register tells.
pub open spec fn version_in(scr: ScrRegister) -> crate::card::version::CardVersion {
    version_of(SdPhysicalSpecification::of_code(bits8(scr.val[0], 0, 4)))
}

/// The SD configuration register was read, and the version of the card is
/// noted where the register came.
pub open spec fn version_taken(start: Scene, end: Scene, r: Result<(), MciError>) -> bool {
    exists|scr: Result<ScrRegister, MciError>| #[trigger]
        scr_loaded(start.record, end.record, start.settings.rca, scr) && match scr {
            Err(e) => r == Err::<(), MciError>(e) && end.settings == start.settings,
            Ok(scr) => r is Ok && end.settings == (Settings {
                version: version_in(scr),
                ..start.settings
            }),
        }
}

/// Reads the SD configuration register and notes the version of the card.
pub fn take_version<B: Bus + Adtc + Read>(
    bus: &mut B,
    record: &mut Ghost<Record>,
    settings: &mut Settings,
) -> (r: Result<(), MciError>)
    ensures
        version_taken(
            scene(*old(settings), old(record)@),
            scene(*final(settings), final(record)@),
            r,
        ),
{
    let ghost start = scene(*settings, record@);
    let loaded = load_scr(bus, record, settings.rca);
    let r = match loaded {
        Err(e) => Err(e),
        Ok(scr) => {
            settings.version = sd_version(scr.sd_specification_version());
            Ok(())
        },
    };
    proof {
        let end = scene(*settings, record@);
        assert(scr_loaded(start.record, end.record, start.settings.rca, loaded));
    }
    r
}

} // verus!
