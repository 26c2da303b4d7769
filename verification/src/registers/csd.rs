//! The card specific data register (CSD).

use vstd::prelude::*;
use crate::bits::{field_words, wide_bits};

verus! {

/// The layout version of the card specific data of an SD card.
#[derive(Clone, Copy, Debug, PartialEq, Eq, Structural)]
pub enum SdCsdStructureVersion {
    /// Version 1.0, for standard capacity.
    Ver1d0,
    /// Version 2.0, for high and extended capacity.
    Ver2d0,
    /// Version 3.0, for ultra capacity.
    Ver3d0,
    /// The code that is not assigned.
    Reserved,
}

impl SdCsdStructureVersion {
    /// The version that a two-bit code stands for.
    pub open spec fn of_code(code: u128) -> SdCsdStructureVersion {
        if code == 0 {
            SdCsdStructureVersion::Ver1d0
        } else if code == 1 {
            SdCsdStructureVersion::Ver2d0
        } else if code == 2 {
            SdCsdStructureVersion::Ver3d0
        } else {
            SdCsdStructureVersion::Reserved
        }
    }

    /// Whether the layout is that of version 2.0 or of a later one.
    pub open spec fn spec_is_2_0_or_later(self) -> bool {
        !(self is Ver1d0)
    }

    /// Whether the layout is that of version 2.0 or of a later one.
    pub fn is_2_0_or_later(self) -> (r: bool)
        ensures
            r == self.spec_is_2_0_or_later(),
    {
        match self {
            SdCsdStructureVersion::Ver1d0 => false,
            _ => true,
        }
    }
}

/// The 128 bits of the card specific data. Word `k` holds the bits `32 * k`
/// to `32 * k + 31` of the register.
#[derive(Clone, Copy, Debug, PartialEq, Eq)]
pub struct CsdRegister(pub [u32; 4]);

impl Default for CsdRegister {
    fn default() -> (r: Self)
        ensures
            forall|k: int| 0 <= k < 4 ==> r.0[k] == 0,
    {
        CsdRegister([0u32; 4])
    }
}

impl CsdRegister {
    /// The field of the register that starts at bit `lo` and ends before bit
    /// `hi`.
    pub open spec fn field(self, lo: u128, hi: u128) -> u128 {
        wide_bits(self.0, lo, hi)
    }

    /// The layout version of an SD card (bits 126 and 127).
    pub fn sd_csd_structure_version(&self) -> (r: SdCsdStructureVersion)
        ensures
            r == SdCsdStructureVersion::of_code(self.field(126, 128)),
    {
        let code = field_words(&self.0, 126, 128);
        if code == 0 {
            SdCsdStructureVersion::Ver1d0
        } else if code == 1 {
            SdCsdStructureVersion::Ver2d0
        } else if code == 2 {
            SdCsdStructureVersion::Ver3d0
        } else {
            SdCsdStructureVersion::Reserved
        }
    }

    /// The specification version of an MMC (bits 122 to 125).
    pub fn mmc_csd_spec_version(&self) -> (r: u8)
        ensures
            r == self.field(122, 126),
            r <= 15,
    {
        field_words(&self.0, 122, 126) as u8
    }

    /// The code of the maximum transfer rate (bits 96 to 103).
    pub fn transmission_speed(&self) -> (r: u8)
        ensures
            r == self.field(96, 104),
    {
        field_words(&self.0, 96, 104) as u8
    }

    /// The binary logarithm of the read block length (bits 80 to 83).
    pub fn read_bl_length(&self) -> (r: u8)
        ensures
            r == self.field(80, 84),
            r <= 15,
    {
        field_words(&self.0, 80, 84) as u8
    }

    /// The device size in the first layout (bits 62 to 73).
    pub fn card_size(&self) -> (r: u16)
        ensures
            r == self.field(62, 74),
            r <= 0xfff,
    {
        field_words(&self.0, 62, 74) as u16
    }

    /// The device size multiplier in the first layout (bits 47 to 49).
    pub fn card_size_multiplier(&self) -> (r: u8)
        ensures
            r == self.field(47, 50),
            r <= 7,
    {
        field_words(&self.0, 47, 50) as u8
    }

    /// The device size in the second layout (bits 48 to 69).
    pub fn sd_2_0_card_size(&self) -> (r: u32)
        ensures
            r == self.field(48, 70),
            r <= 0x3f_ffff,
    {
        field_words(&self.0, 48, 70)
    }
}

} // verus!
