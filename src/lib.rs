//! Driver library for the DA7280/DA7281/DA7282 haptic drivers.
//!
//! The heart of it is [`waveform`], which compiles snippets and sequences
//! into the device's waveform memory image. [`config`] and [`types`] hold the
//! device configuration and the register values it leads to, and
//! [`registers`] the register map.

use vstd::prelude::*;

pub mod config;
pub mod errors;
pub mod registers;
pub mod types;
pub mod waveform;

use crate::errors::Error;
use crate::registers::CHIP_REV;

verus! {

/// The chip variants the driver supports.
#[derive(Debug, Clone, Copy)]
pub enum Variant {
    /// DA7280 (chip revision 0xB, 0xA).
    DA7280,
    /// DA7281 (chip revision 0xC, 0xA).
    DA7281,
    /// DA7282 (chip revision 0xD, 0xA).
    DA7282,
}

/// The (minor, major) chip revision each variant reports.
pub open spec fn expected_revision(v: Variant) -> (u8, u8) {
    match v {
        Variant::DA7280 => (0xB, 0xA),
        Variant::DA7281 => (0xC, 0xA),
        Variant::DA7282 => (0xD, 0xA),
    }
}

impl Variant {
    /// Checks the chip revision read from the device against this variant.
    pub fn check_chip_rev(&self, rev: CHIP_REV) -> (r: Result<(), Error>)
        ensures
            (rev@ & 0x0F == expected_revision(*self).0 && rev@ >> 4 == expected_revision(*self).1)
                ==> r == Ok::<(), Error>(()),
            !(rev@ & 0x0F == expected_revision(*self).0 && rev@ >> 4 == expected_revision(*self).1)
                ==> r == Err::<(), Error>(Error::VariantMismatch),
    {
        let (minor, major): (u8, u8) = match self {
            Variant::DA7280 => (0xB, 0xA),
            Variant::DA7281 => (0xC, 0xA),
            Variant::DA7282 => (0xD, 0xA),
        };
        if rev.CHIP_REV_MINOR() != minor || rev.CHIP_REV_MAJOR() != major {
            return Err(Error::VariantMismatch);
        }
        Ok(())
    }
}

} // verus!
