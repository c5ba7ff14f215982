//! Register addresses of the DA728x and the layout of the register bytes the
//! driver reads and writes.

#![allow(non_camel_case_types)]
#![allow(non_snake_case)]

use vstd::prelude::*;

use crate::config::{operation_mode_value, ConfigurationPlan, OperationMode};

verus! {

/// Registers of the DA728x that the driver uses.
#[derive(Debug, Clone, Copy)]
pub enum Register {
    CHIP_REV,
    IRQ_EVENT1,
    IRQ_EVENT_WARNING_DIAG,
    IRQ_EVENT_SEQ_DIAG,
    IRQ_STATUS1,
    FRQ_LRA_PER_H,
    FRQ_LRA_PER_L,
    ACTUATOR1,
    ACTUATOR2,
    ACTUATOR3,
    CALIB_V2I_H,
    CALIB_V2I_L,
    TOP_CFG1,
    TOP_CFG4,
    TOP_CTL1,
    TOP_CTL2,
    SEQ_CTL1,
    FRQ_PHASE_H,
    FRQ_PHASE_L,
}

/// The address of each register.
pub open spec fn register_address(r: Register) -> u8 {
    match r {
        Register::CHIP_REV => 0x00,
        Register::IRQ_EVENT1 => 0x03,
        Register::IRQ_EVENT_WARNING_DIAG => 0x04,
        Register::IRQ_EVENT_SEQ_DIAG => 0x05,
        Register::IRQ_STATUS1 => 0x06,
        Register::FRQ_LRA_PER_H => 0x0A,
        Register::FRQ_LRA_PER_L => 0x0B,
        Register::ACTUATOR1 => 0x0C,
        Register::ACTUATOR2 => 0x0D,
        Register::ACTUATOR3 => 0x0E,
        Register::CALIB_V2I_H => 0x0F,
        Register::CALIB_V2I_L => 0x10,
        Register::TOP_CFG1 => 0x13,
        Register::TOP_CFG4 => 0x16,
        Register::TOP_CTL1 => 0x22,
        Register::TOP_CTL2 => 0x23,
        Register::SEQ_CTL1 => 0x24,
        Register::FRQ_PHASE_H => 0x48,
        Register::FRQ_PHASE_L => 0x49,
    }
}

impl Register {
    /// The address of this register.
    pub fn address(&self) -> (r: u8)
        ensures
            r == register_address(*self),
    {
        match self {
            Register::CHIP_REV => 0x00,
            Register::IRQ_EVENT1 => 0x03,
            Register::IRQ_EVENT_WARNING_DIAG => 0x04,
            Register::IRQ_EVENT_SEQ_DIAG => 0x05,
            Register::IRQ_STATUS1 => 0x06,
            Register::FRQ_LRA_PER_H => 0x0A,
            Register::FRQ_LRA_PER_L => 0x0B,
            Register::ACTUATOR1 => 0x0C,
            Register::ACTUATOR2 => 0x0D,
            Register::ACTUATOR3 => 0x0E,
            Register::CALIB_V2I_H => 0x0F,
            Register::CALIB_V2I_L => 0x10,
            Register::TOP_CFG1 => 0x13,
            Register::TOP_CFG4 => 0x16,
            Register::TOP_CTL1 => 0x22,
            Register::TOP_CTL2 => 0x23,
            Register::SEQ_CTL1 => 0x24,
            Register::FRQ_PHASE_H => 0x48,
            Register::FRQ_PHASE_L => 0x49,
        }
    }
}

/// The chip revision register: minor revision in bits 3..0, major in bits 7..4.
#[derive(Debug, Clone, Copy, PartialEq, Eq)]
pub struct CHIP_REV {
    bits: u8,
}

impl View for CHIP_REV {
    type V = u8;

    closed spec fn view(&self) -> u8 {
        self.bits
    }
}

impl CHIP_REV {
    /// The register holding `bits`.
    pub fn from_bits(bits: u8) -> (r: Self)
        ensures
            r@ == bits,
    {
        CHIP_REV { bits }
    }

    /// The raw register byte.
    pub fn into_bits(&self) -> (r: u8)
        ensures
            r == self@,
    {
        self.bits
    }

    /// The minor revision (bits 3..0).
    pub fn CHIP_REV_MINOR(&self) -> (r: u8)
        ensures
            r == self@ & 0x0F,
    {
        self.bits & 0x0F
    }

    /// The major revision (bits 7..4).
    pub fn CHIP_REV_MAJOR(&self) -> (r: u8)
        ensures
            r == self@ >> 4,
    {
        self.bits >> 4
    }
}

impl From<u8> for CHIP_REV {
    fn from(bits: u8) -> (r: Self) {
        CHIP_REV { bits }
    }
}

impl vstd::std_specs::convert::FromSpecImpl<u8> for CHIP_REV {
    open spec fn obeys_from_spec() -> bool {
        true
    }

    closed spec fn from_spec(bits: u8) -> Self {
        CHIP_REV { bits }
    }
}

/// TOP_CFG1: ACTUATOR_TYPE in bit 5, then BEMF_SENSE_EN, FREQ_TRACK_EN,
/// ACCELERATION_EN, RAPID_STOP_EN and AMP_PID_EN (bit 0, left clear).
pub open spec fn top_cfg1_byte(p: ConfigurationPlan) -> u8 {
    ((p.actuator_type & 1u8) << 5u8) | ((if p.bemf_sense_en { 1u8 } else { 0u8 }) << 4u8) | ((
    if p.freq_track_en {
        1u8
    } else {
        0u8
    }) << 3u8) | ((if p.acceleration_en { 1u8 } else { 0u8 }) << 2u8) | ((if p.rapid_stop_en {
        1u8
    } else {
        0u8
    }) << 1u8)
}

/// The TOP_CFG1 byte for a configuration plan.
pub fn top_cfg1_value(plan: &ConfigurationPlan) -> (r: u8)
    ensures
        r == top_cfg1_byte(*plan),
{
    let t: u8 = (plan.actuator_type & 1) << 5;
    let bemf: u8 = if plan.bemf_sense_en { 1 } else { 0 };
    let track: u8 = if plan.freq_track_en { 1 } else { 0 };
    let accel: u8 = if plan.acceleration_en { 1 } else { 0 };
    let stop: u8 = if plan.rapid_stop_en { 1 } else { 0 };
    t | (bemf << 4) | (track << 3) | (accel << 2) | (stop << 1)
}

/// TOP_CTL1 with its OPERATION_MODE field (bits 2..0) set to `mode` and the
/// other bits of `current` kept.
pub fn top_ctl1_with_mode(current: u8, mode: OperationMode) -> (r: u8)
    ensures
        r == (current & 0xF8u8) | operation_mode_value(mode),
        r & 0x07u8 == operation_mode_value(mode),
        r & 0xF8u8 == current & 0xF8u8,
{
    let m: u8 = mode.register_value();
    let r: u8 = (current & 0xF8) | m;
    assert(((current & 0xF8u8) | m) & 0x07u8 == m && ((current & 0xF8u8) | m) & 0xF8u8 == current
        & 0xF8u8) by (bit_vector)
        requires
            m <= 4,
    ;
    r
}

/// FRQ_LRA_PER_L keeps the period's low seven bits.
pub fn lra_per_l_value(low: u8) -> (r: u8)
    ensures
        r == low & 0x7Fu8,
{
    low & 0x7F
}

/// ACTUATOR3 keeps IMAX in bits 4..0.
pub fn actuator3_value(imax: u8) -> (r: u8)
    ensures
        r == imax & 0x1Fu8,
{
    imax & 0x1F
}

/// FRQ_PHASE_L with DELAY_SHIFT_L zero and DELAY_FREEZE (bit 7) set.
pub const FRQ_PHASE_L_DELAY_FREEZE: u8 = 0x80;

/// SEQ_CTL1 with WAVEGEN_MODE (bit 1) set.
pub const SEQ_CTL1_WAVEGEN_MODE: u8 = 0x02;

/// TOP_CFG4 with V2I_FACTOR_FREEZE (bit 7) set.
pub const TOP_CFG4_V2I_FACTOR_FREEZE: u8 = 0x80;

} // verus!
