//! Actuator and device configuration, and the register values a
//! configuration leads to.

use vstd::prelude::*;

use crate::errors::Error;

verus! {

/// Electrical ratings of the actuator.
#[allow(non_snake_case)]
#[derive(Debug, Clone, Copy)]
pub struct ActuatorConfig {
    /// Actuator type.
    pub actuator_type: ActuatorType,
    /// Nominal maximum voltage in mV (at most 6000).
    pub nominal_max_mV: u16,
    /// Absolute maximum voltage in mV (at most 6000).
    pub absolute_max_mV: u16,
    /// Maximum current in mA (29 to 252).
    pub max_current_mA: u16,
    /// Impedance in milliohm (4000 up to, not including, 50000).
    pub impedance_mOhm: u16,
    /// Resonant frequency in Hz (50 up to, not including, 300).
    pub frequency_Hz: u16,
}

/// Actuator type.
#[allow(nonstandard_style)]
#[derive(Debug, Clone, Copy, PartialEq)]
pub enum ActuatorType {
    /// Linear resonant actuator.
    LRA,
    /// Eccentric rotating mass.
    ERM,
}

/// The ACTUATOR_TYPE field of each actuator type.
pub open spec fn actuator_type_value(t: ActuatorType) -> u8 {
    match t {
        ActuatorType::LRA => 0,
        ActuatorType::ERM => 1,
    }
}

impl ActuatorType {
    /// The register value of this actuator type.
    pub fn register_value(&self) -> (r: u8)
        ensures
            r == actuator_type_value(*self),
    {
        match self {
            ActuatorType::LRA => 0,
            ActuatorType::ERM => 1,
        }
    }
}

/// How the device is to be operated.
#[derive(Debug, Clone, Copy)]
pub struct DeviceConfig {
    /// Operation mode that `enable` switches to.
    pub operation_mode: OperationMode,
    /// Driving mode.
    pub driving_mode: DrivingMode,
    /// Acceleration (frequency-tracking mode only).
    pub acceleration: bool,
    /// Rapid stop (frequency-tracking mode only).
    pub rapid_stop: bool,
}

/// Operation mode of the device.
#[allow(nonstandard_style)]
#[derive(Debug, Clone, Copy, PartialEq)]
pub enum OperationMode {
    /// Inactive.
    INACTIVE,
    /// Direct register override.
    DRO_MODE,
    /// PWM input.
    PWM_MODE,
    /// Register-triggered waveform memory.
    RTWM_MODE,
    /// Edge-triggered waveform memory.
    ETWM_MODE,
}

/// The OPERATION_MODE field of each mode.
pub open spec fn operation_mode_value(m: OperationMode) -> u8 {
    match m {
        OperationMode::INACTIVE => 0,
        OperationMode::DRO_MODE => 1,
        OperationMode::PWM_MODE => 2,
        OperationMode::RTWM_MODE => 3,
        OperationMode::ETWM_MODE => 4,
    }
}

impl OperationMode {
    /// The register value of this mode.
    pub fn register_value(&self) -> (r: u8)
        ensures
            r == operation_mode_value(*self),
    {
        match self {
            OperationMode::INACTIVE => 0,
            OperationMode::DRO_MODE => 1,
            OperationMode::PWM_MODE => 2,
            OperationMode::RTWM_MODE => 3,
            OperationMode::ETWM_MODE => 4,
        }
    }
}

/// Driving mode of the actuator.
#[derive(Debug, Clone, Copy, PartialEq)]
#[allow(nonstandard_style)]
pub enum DrivingMode {
    /// Resonant frequency tracking (LRA).
    FREQUENCY_TRACK,
    /// Wideband (open loop at a set frequency).
    WIDEBAND,
    /// Custom drive waveform.
    CUSTOM_WAVEFORM,
}

/// Register values that `configure` writes for a valid configuration.
#[derive(Debug, Clone, Copy, PartialEq, Eq)]
pub struct ConfigurationPlan {
    /// ACTUATOR_TYPE value.
    pub actuator_type: u8,
    /// Back-EMF sensing.
    pub bemf_sense_en: bool,
    /// Frequency tracking.
    pub freq_track_en: bool,
    /// Acceleration.
    pub acceleration_en: bool,
    /// Rapid stop.
    pub rapid_stop_en: bool,
    /// ACTUATOR1: nominal maximum voltage in 23.4 mV steps.
    pub nominal_max: u8,
    /// ACTUATOR2: absolute maximum voltage in 23.4 mV steps.
    pub absolute_max: u8,
    /// ACTUATOR3 IMAX: maximum current in 7.2 mA steps above 28.6 mA.
    pub imax: u8,
    /// CALIB_V2I (high byte first): the voltage-to-current factor.
    pub calib_v2i: u16,
    /// FRQ_LRA_PER_H: bits 14..7 of the LRA period.
    pub lra_period_h: u8,
    /// FRQ_LRA_PER_L: bits 6..0 of the LRA period.
    pub lra_period_l: u8,
    /// Whether the phase delay is frozen (wideband and custom waveform).
    pub freeze_delay: bool,
    /// Whether the waveform generator drives the actuator (custom waveform).
    pub custom_waveform: bool,
}

/// The register value for `mv` millivolts, in whole 23.4 mV steps (kept to eight bits).
pub open spec fn voltage_steps(mv: u16) -> u8 {
    ((mv * 1000) / 23400) as u8
}

/// The IMAX value for `ma` milliamps, in whole 7.2 mA steps above 28.6 mA.
pub open spec fn imax_steps(ma: u16) -> u8 {
    ((ma * 1000 - 28600) / 7200) as u8
}

/// The voltage-to-current factor for an impedance of `mohm` milliohm and an IMAX value.
pub open spec fn calib_v2i(mohm: u16, imax: u8) -> u16 {
    ((mohm * 1000 * (imax + 4)) / 1610400) as u16
}

/// The LRA period for `hz` Hz, in 1.333 us units.
pub open spec fn lra_period(hz: u16) -> u16 {
    (1_000_000_000int / (hz * 1333)) as u16
}

/// Bits 14..7 of a period.
pub open spec fn period_high(p: u16) -> u8 {
    ((p >> 7u16) & 0xFFu16) as u8
}

/// Bits 6..0 of a period.
pub open spec fn period_low(p: u16) -> u8 {
    (p & 0x7Fu16) as u8
}

/// What `configure` does with a configuration: the first failed check's
/// error, or the register values to write.
pub open spec fn configuration_plan(a: ActuatorConfig, d: DeviceConfig) -> Result<
    ConfigurationPlan,
    Error,
> {
    let tracking = d.driving_mode is FREQUENCY_TRACK;
    if !tracking && (d.acceleration || d.rapid_stop) {
        Err(Error::WrongMode)
    } else if a.nominal_max_mV > 6000 || a.absolute_max_mV > 6000 || a.max_current_mA > 252
        || a.max_current_mA * 1000 < 28600 || !(4000 <= a.impedance_mOhm < 50000) || !(50
        <= a.frequency_Hz < 300) {
        Err(Error::InvalidValue)
    } else {
        let imax: u8 = imax_steps(a.max_current_mA);
        Ok(
            ConfigurationPlan {
                actuator_type: actuator_type_value(a.actuator_type),
                bemf_sense_en: tracking,
                freq_track_en: tracking,
                acceleration_en: tracking && d.acceleration,
                rapid_stop_en: tracking && d.rapid_stop,
                nominal_max: voltage_steps(a.nominal_max_mV),
                absolute_max: voltage_steps(a.absolute_max_mV),
                imax,
                calib_v2i: calib_v2i(a.impedance_mOhm, imax),
                lra_period_h: period_high(lra_period(a.frequency_Hz)),
                lra_period_l: period_low(lra_period(a.frequency_Hz)),
                freeze_delay: !tracking,
                custom_waveform: d.driving_mode is CUSTOM_WAVEFORM,
            },
        )
    }
}

/// Checks a configuration and works out the register values for it.
///
/// Acceleration and rapid stop need the frequency-tracking driving mode.
/// Voltages must be at most 6000 mV, the current between 28.6 mA and 252
/// mA, the impedance in 4000..50000 milliohm and the frequency in 50..300 Hz.
pub fn plan_configuration(actuator: &ActuatorConfig, device: &DeviceConfig) -> (r: Result<
    ConfigurationPlan,
    Error,
>)
    ensures
        r == configuration_plan(*actuator, *device),
{
    let tracking = match device.driving_mode {
        DrivingMode::FREQUENCY_TRACK => true,
        _ => false,
    };
    if !tracking && (device.acceleration || device.rapid_stop) {
        return Err(Error::WrongMode);
    }
    if actuator.nominal_max_mV > 6000 || actuator.absolute_max_mV > 6000
        || actuator.max_current_mA > 252 || (actuator.max_current_mA as u32) * 1000 < 28600 || !(
    4000 <= actuator.impedance_mOhm && actuator.impedance_mOhm < 50000) || !(50
        <= actuator.frequency_Hz && actuator.frequency_Hz < 300) {
        return Err(Error::InvalidValue);
    }
    let nominal_max: u8 = ((actuator.nominal_max_mV as u32 * 1000) / 23400) as u8;
    let absolute_max: u8 = ((actuator.absolute_max_mV as u32 * 1000) / 23400) as u8;
    let imax: u8 = ((actuator.max_current_mA as u32 * 1000 - 28600) / 7200) as u8;
    assert(imax <= 31);
    assert((actuator.impedance_mOhm as u32) * 1000 * (imax as u32 + 4) <= 50000 * 1000 * 35)
        by (nonlinear_arith)
        requires
            actuator.impedance_mOhm < 50000,
            imax <= 31,
    ;
    let calib: u16 = ((actuator.impedance_mOhm as u32 * 1000 * (imax as u32 + 4)) / 1610400) as u16;
    let period: u16 = lra_period_of(actuator.frequency_Hz);
    Ok(
        ConfigurationPlan {
            actuator_type: actuator.actuator_type.register_value(),
            bemf_sense_en: tracking,
            freq_track_en: tracking,
            acceleration_en: tracking && device.acceleration,
            rapid_stop_en: tracking && device.rapid_stop,
            nominal_max,
            absolute_max,
            imax,
            calib_v2i: calib,
            lra_period_h: ((period >> 7) & 0xFF) as u8,
            lra_period_l: (period & 0x7F) as u8,
            freeze_delay: !tracking,
            custom_waveform: match device.driving_mode {
                DrivingMode::CUSTOM_WAVEFORM => true,
                _ => false,
            },
        },
    )
}

fn lra_period_of(hz: u16) -> (r: u16)
    requires
        hz >= 1,
    ensures
        r == lra_period(hz),
{
    assert((hz as u32) * 1333 <= 65535 * 1333) by (nonlinear_arith)
        requires
            hz <= 65535,
    ;
    assert((hz as u32) * 1333 >= 1333) by (nonlinear_arith)
        requires
            hz >= 1,
    ;
    (1_000_000_000u32 / (hz as u32 * 1333)) as u16
}

/// The device configuration, once both halves of the configuration are set.
pub fn configured(actuator: &Option<ActuatorConfig>, device: &Option<DeviceConfig>) -> (r: Result<
    DeviceConfig,
    Error,
>)
    ensures
        (actuator is None || device is None) ==> r == Err::<DeviceConfig, Error>(
            Error::NotConfigured,
        ),
        (actuator is Some && device is Some) ==> r == Ok::<DeviceConfig, Error>(device->Some_0),
{
    match (actuator, device) {
        (Some(_), Some(d)) => Ok(*d),
        _ => Err(Error::NotConfigured),
    }
}

/// The frequency bytes that `set_frequency` writes: the LRA period's high
/// and low parts. Frequency tracking takes 50..300 Hz, the other driving
/// modes 25..1024 Hz.
pub fn plan_frequency(device: &DeviceConfig, frequency_hz: u16) -> (r: Result<(u8, u8), Error>)
    ensures
        (device.driving_mode is FREQUENCY_TRACK && !(50 <= frequency_hz < 300)) ==> r == Err::<
            (u8, u8),
            Error,
        >(Error::InvalidValue),
        (!(device.driving_mode is FREQUENCY_TRACK) && !(25 <= frequency_hz < 1024)) ==> r
            == Err::<(u8, u8), Error>(Error::InvalidValue),
        (if device.driving_mode is FREQUENCY_TRACK {
            50 <= frequency_hz < 300
        } else {
            25 <= frequency_hz < 1024
        }) ==> r == Ok::<(u8, u8), Error>(
            (period_high(lra_period(frequency_hz)), period_low(lra_period(frequency_hz))),
        ),
{
    let in_range = match device.driving_mode {
        DrivingMode::FREQUENCY_TRACK => 50 <= frequency_hz && frequency_hz < 300,
        DrivingMode::WIDEBAND | DrivingMode::CUSTOM_WAVEFORM => 25 <= frequency_hz && frequency_hz
            < 1024,
    };
    if !in_range {
        return Err(Error::InvalidValue);
    }
    let period: u16 = lra_period_of(frequency_hz);
    Ok((((period >> 7) & 0xFF) as u8, (period & 0x7F) as u8))
}

/// The TOP_CTL2 byte that `set_override_value` writes. Negative values need
/// acceleration off; the device must be in direct-register-override mode.
pub fn plan_override(device: &DeviceConfig, value: i8) -> (r: Result<u8, Error>)
    ensures
        (device.acceleration && value < 0) ==> r == Err::<u8, Error>(Error::InvalidValue),
        !(device.acceleration && value < 0) && !(device.operation_mode is DRO_MODE) ==> r
            == Err::<u8, Error>(Error::WrongMode),
        !(device.acceleration && value < 0) && device.operation_mode is DRO_MODE ==> r == Ok::<
            u8,
            Error,
        >(value as u8),
{
    if device.acceleration && value < 0 {
        return Err(Error::InvalidValue);
    }
    match device.operation_mode {
        OperationMode::DRO_MODE => Ok(value as u8),
        _ => Err(Error::WrongMode),
    }
}

/// Checks that a custom drive waveform can be set: the driving mode must be
/// the custom waveform mode.
pub fn check_custom_waveform(device: &DeviceConfig) -> (r: Result<(), Error>)
    ensures
        device.driving_mode is CUSTOM_WAVEFORM ==> r == Ok::<(), Error>(()),
        !(device.driving_mode is CUSTOM_WAVEFORM) ==> r == Err::<(), Error>(Error::WrongMode),
{
    match device.driving_mode {
        DrivingMode::CUSTOM_WAVEFORM => Ok(()),
        _ => Err(Error::WrongMode),
    }
}

} // verus!
