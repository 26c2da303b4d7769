//! The specification version that a card follows.

use vstd::prelude::*;

verus! {

/// Versions of the SD memory card specification.
#[derive(Clone, Copy, Debug, PartialEq, Eq, Structural)]
pub enum SdCardVersion {
    /// Version 1.0 and 1.01.
    Sd1d0,
    /// Version 1.10.
    Sd1d10,
    /// Version 2.00.
    Sd2d0,
}

/// Versions of the MMC system specification.
#[derive(Clone, Copy, Debug, PartialEq, Eq, Structural)]
pub enum MmcVersion {
    /// Version 1.2.
    Mmc1d2,
    /// Version 1.4.
    Mmc1d4,
    /// Version 2.2.
    Mmc2d2,
    /// Version 3.0.
    SdMmc3d0,
    /// Version 4.0.
    Mmc4d0,
}

/// The version of a card.
#[derive(Clone, Copy, Debug, PartialEq, Eq, Structural)]
pub enum CardVersion {
    /// Not known yet, or not recognised.
    Unknown,
    /// An SD card.
    SdCard(SdCardVersion),
    /// An MMC.
    Mmc(MmcVersion),
}

impl CardVersion {
    /// The version of an MMC with the specification version code `code`.
    pub open spec fn of_mmc_code(code: u8) -> CardVersion {
        if code == 0 {
            CardVersion::Mmc(MmcVersion::Mmc1d2)
        } else if code == 1 {
            CardVersion::Mmc(MmcVersion::Mmc1d4)
        } else if code == 2 {
            CardVersion::Mmc(MmcVersion::Mmc2d2)
        } else if code == 3 {
            CardVersion::Mmc(MmcVersion::SdMmc3d0)
        } else if code == 4 {
            CardVersion::Mmc(MmcVersion::Mmc4d0)
        } else {
            CardVersion::Unknown
        }
    }

    /// Whether the card is an MMC of version 4.0 or later.
    pub open spec fn spec_is_mmc_4_or_later(self) -> bool {
        self == CardVersion::Mmc(MmcVersion::Mmc4d0)
    }

    /// Whether the card is an MMC of version 4.0 or later: such a card has
    /// the extended card specific data.
    pub fn is_mmc_4_or_later(&self) -> (r: bool)
        ensures
            r == self.spec_is_mmc_4_or_later(),
    {
        match self {
            CardVersion::Mmc(MmcVersion::Mmc4d0) => true,
            _ => false,
        }
    }
}

} // verus!
