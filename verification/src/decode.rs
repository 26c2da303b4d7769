//! Decoders from raw register values to clock, capacity and version.

use vstd::prelude::*;
use crate::bits::{bits32, bits8, field_u32, field_u8};
use crate::card::card::{
    Settings, MMC_TRANS_MULTIPLIERS, SD_MMC_TRANS_UNITS, SD_TRANS_MULTIPLIERS,
};
use crate::card::version::{CardVersion, MmcVersion, SdCardVersion};
use crate::registers::csd::CsdRegister;
use crate::sd::sd_physical_specification::SdPhysicalSpecification;

verus! {

/// The transfer rate unit of a unit code. The codes 4 to 7 are reserved and
/// give 0.
pub open spec fn unit_of(code: u8) -> u32 {
    if code == 0 {
        10
    } else if code == 1 {
        100
    } else if code == 2 {
        1_000
    } else if code == 3 {
        10_000
    } else {
        0
    }
}

/// The transfer rate multiplier, in tenths, of a multiplier code. SD cards
/// and MMC differ at the codes 6 and 11.
pub open spec fn multiplier_of(code: u8, mmc: bool) -> u32 {
    if code == 0 {
        0
    } else if code == 1 {
        10
    } else if code == 2 {
        12
    } else if code == 3 {
        13
    } else if code == 4 {
        15
    } else if code == 5 {
        20
    } else if code == 6 {
        if mmc {
            26
        } else {
            25
        }
    } else if code == 7 {
        30
    } else if code == 8 {
        35
    } else if code == 9 {
        40
    } else if code == 10 {
        45
    } else if code == 11 {
        if mmc {
            52
        } else {
            50
        }
    } else if code == 12 {
        55
    } else if code == 13 {
        60
    } else if code == 14 {
        70
    } else if code == 15 {
        80
    } else {
        0
    }
}

/// The maximum clock in Hz that a transfer speed code stands for: the unit
/// of its low three bits times the multiplier of its bits 3 to 6 times 1000.
pub open spec fn clock_of(trans_speed: u8, mmc: bool) -> int {
    unit_of(bits8(trans_speed, 0, 3)) * multiplier_of(bits8(trans_speed, 3, 7), mmc) * 1000
}

/// The capacity in KBytes by the first layout of the card specific data:
/// `(C_SIZE + 1) * (C_SIZE_MULT + 2)` blocks of `2 ^ READ_BL_LEN` bytes.
pub open spec fn capacity_of_v1(csd: CsdRegister) -> int {
    (csd.field(62, 74) + 1) * (csd.field(47, 50) + 2) * vstd::arithmetic::power2::pow2(
        csd.field(80, 84) as nat,
    ) as int / 1024
}

/// The capacity in KBytes by the second layout of the card specific data:
/// `(C_SIZE + 1) * 512`.
pub open spec fn capacity_of_v2(csd: CsdRegister) -> int {
    (csd.field(48, 70) + 1) * 512
}

/// The version of an SD card that follows the given revision of the physical
/// layer specification. Revisions that the driver does not know count as the
/// first.
pub open spec fn version_of(revision: SdPhysicalSpecification) -> CardVersion {
    match revision {
        SdPhysicalSpecification::Revision1d01 => CardVersion::SdCard(SdCardVersion::Sd1d0),
        SdPhysicalSpecification::Revision1d10 => CardVersion::SdCard(SdCardVersion::Sd1d10),
        SdPhysicalSpecification::Revision2d00 => CardVersion::SdCard(SdCardVersion::Sd2d0),
        _ => CardVersion::SdCard(SdCardVersion::Sd1d0),
    }
}

/// Whether the card type byte of the extended card specific data, the low
/// byte of `word`, says that the card runs at 52 MHz.
pub open spec fn high_speed_of(word: u32) -> bool {
    bits32(word, 0, 2) == 2
}

/// Looks a unit code up.
pub fn transfer_unit(code: u8) -> (r: u32)
    ensures
        r == unit_of(code),
        r <= 10_000,
{
    if code < 7 {
        SD_MMC_TRANS_UNITS[code as usize]
    } else {
        0
    }
}

/// Looks a multiplier code up in the table for SD cards or in that for MMC.
pub fn transfer_multiplier(code: u8, mmc: bool) -> (r: u32)
    ensures
        r == multiplier_of(code, mmc),
        r <= 80,
{
    if code >= 16 {
        0
    } else if mmc {
        MMC_TRANS_MULTIPLIERS[code as usize]
    } else {
        SD_TRANS_MULTIPLIERS[code as usize]
    }
}

/// The maximum clock in Hz that a transfer speed code stands for.
pub fn max_clock(trans_speed: u8, mmc: bool) -> (r: u32)
    ensures
        r == clock_of(trans_speed, mmc),
        r <= 800_000_000,
{
    let unit = transfer_unit(field_u8(trans_speed, 0, 3));
    let mult = transfer_multiplier(field_u8(trans_speed, 3, 7), mmc);
    assert(unit * mult <= 800_000) by (nonlinear_arith)
        requires
            unit <= 10_000,
            mult <= 80,
    ;
    unit * mult * 1000
}

/// The capacity in KBytes by the first layout of the card specific data.
pub fn capacity_v1(csd: &CsdRegister) -> (r: u32)
    ensures
        r == capacity_of_v1(*csd),
{
    let size: u32 = csd.card_size() as u32;
    let mult: u32 = csd.card_size_multiplier() as u32;
    let len: u32 = csd.read_bl_length() as u32;
    assert((size + 1) * (mult + 2) <= 36_864) by (nonlinear_arith)
        requires
            size <= 4095,
            mult <= 7,
    ;
    let block_nr: u32 = (size + 1) * (mult + 2);
    let block_len: u32 = 1u32 << len;
    proof {
        lemma_block_length(len);
    }
    assert(block_nr * block_len <= 36_864 * 32_768) by (nonlinear_arith)
        requires
            block_nr <= 36_864,
            block_len <= 32_768,
    ;
    block_nr * block_len / 1024
}

/// A shift of one by less than 16 is the power of two.
proof fn lemma_block_length(len: u32)
    requires
        len <= 15,
    ensures
        1u32 << len == vstd::arithmetic::power2::pow2(len as nat),
        1u32 << len <= 32_768,
{
    vstd::arithmetic::power2::lemma2_to64();
    if len < 15 {
        vstd::arithmetic::power2::lemma_pow2_strictly_increases(len as nat, 15);
    }
    vstd::bits::lemma_u32_shl_is_mul(1, len);
}

/// The capacity in KBytes by the second layout of the card specific data.
pub fn capacity_v2(csd: &CsdRegister) -> (r: u32)
    ensures
        r == capacity_of_v2(*csd),
{
    (csd.sd_2_0_card_size() + 1) * 512
}

/// The version of an MMC with the given specification version code.
pub fn mmc_version(code: u8) -> (r: CardVersion)
    ensures
        r == CardVersion::of_mmc_code(code),
{
    match code {
        0 => CardVersion::Mmc(MmcVersion::Mmc1d2),
        1 => CardVersion::Mmc(MmcVersion::Mmc1d4),
        2 => CardVersion::Mmc(MmcVersion::Mmc2d2),
        3 => CardVersion::Mmc(MmcVersion::SdMmc3d0),
        4 => CardVersion::Mmc(MmcVersion::Mmc4d0),
        _ => CardVersion::Unknown,
    }
}

/// The version of an SD card that follows the given revision of the physical
/// layer specification.
pub fn sd_version(revision: SdPhysicalSpecification) -> (r: CardVersion)
    ensures
        r == version_of(revision),
{
    match revision {
        SdPhysicalSpecification::Revision1d01 => CardVersion::SdCard(SdCardVersion::Sd1d0),
        SdPhysicalSpecification::Revision1d10 => CardVersion::SdCard(SdCardVersion::Sd1d10),
        SdPhysicalSpecification::Revision2d00 => CardVersion::SdCard(SdCardVersion::Sd2d0),
        _ => CardVersion::SdCard(SdCardVersion::Sd1d0),
    }
}

/// Whether the word of the extended card specific data that holds the card
/// type says that the card runs at 52 MHz.
pub fn high_speed_capable(word: u32) -> (r: bool)
    ensures
        r == high_speed_of(word),
{
    field_u32(word, 0, 2) == 0x2
}

/// What the card specific data of an MMC says of the card: the version, the
/// maximum clock, and the capacity unless the device size is at its
/// maximum, which stands for a capacity that only the extended card specific
/// data tells.
pub open spec fn mmc_decoded(before: Settings, after: Settings) -> bool {
    &&& after == (Settings {
        version: after.version,
        clock: after.clock,
        capacity: after.capacity,
        ..before
    })
    &&& after.version == CardVersion::of_mmc_code(before.csd.field(122, 126) as u8)
    &&& after.clock == clock_of(before.csd.field(96, 104) as u8, true)
    &&& after.capacity == (if before.csd.field(62, 74) != 0xfff {
        capacity_of_v1(before.csd)
    } else {
        before.capacity as int
    })
}

/// What the card specific data of an SD card says of the card: the maximum
/// clock, and the capacity by the layout that the register has.
pub open spec fn sd_decoded(before: Settings, after: Settings) -> bool {
    &&& after == (Settings { clock: after.clock, capacity: after.capacity, ..before })
    &&& after.clock == clock_of(before.csd.field(96, 104) as u8, false)
    &&& after.capacity == (if before.csd.field(126, 128) != 0 {
        capacity_of_v2(before.csd)
    } else {
        capacity_of_v1(before.csd)
    })
}

/// Decodes the card specific data of an MMC.
pub fn decode_mmc(settings: &mut Settings)
    ensures
        mmc_decoded(*old(settings), *final(settings)),
{
    settings.version = mmc_version(settings.csd.mmc_csd_spec_version());
    settings.clock = max_clock(settings.csd.transmission_speed(), true);
    if settings.csd.card_size() != 0xFFF {
        settings.capacity = capacity_v1(&settings.csd);
    }
}

/// Decodes the card specific data of an SD card.
pub fn decode_sd(settings: &mut Settings)
    ensures
        sd_decoded(*old(settings), *final(settings)),
{
    settings.clock = max_clock(settings.csd.transmission_speed(), false);
    if settings.csd.sd_csd_structure_version().is_2_0_or_later() {
        settings.capacity = capacity_v2(&settings.csd);
    } else {
        settings.capacity = capacity_v1(&settings.csd);
    }
}

} // verus!
