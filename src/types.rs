//! Constants and configuration types of the DA728x driver.

use vstd::prelude::*;

verus! {

/// Maximum voltage rating in microvolts (6 V).
pub const VOLTAGE_RATE_MAX: u32 = 6_000_000;

/// Voltage rating step in microvolts (23.4 mV).
pub const VOLTAGE_RATE_STEP: u32 = 23_400;

/// Default nominal maximum voltage.
pub const NOMMAX_DFT: u8 = 0x6B;

/// Default absolute maximum voltage.
pub const ABSMAX_DFT: u8 = 0x78;

/// Maximum impedance in micro-ohms (1500 ohm).
pub const IMPD_MAX: u32 = 1_500_000_000;

/// Default impedance in micro-ohms (22 ohm).
pub const IMPD_DEFAULT: u32 = 22_000_000;

/// Default IMAX value.
pub const IMAX_DEFAULT: u8 = 0x0E;

/// IMAX step in microamps (7.2 mA).
pub const IMAX_STEP: u32 = 7_200;

/// IMAX limit in microamps (252 mA).
pub const IMAX_LIMIT: u32 = 252_000;

/// Offset of the IMAX scale in microamps (28.6 mA).
pub const IMAX_OFFSET: u32 = 28_600;

/// Default resonant frequency high byte.
pub const RESONT_FREQH_DFT: u8 = 0x39;

/// Default resonant frequency low byte.
pub const RESONT_FREQL_DFT: u8 = 0x32;

/// Minimum resonant frequency in Hz.
pub const MIN_RESONAT_FREQ_HZ: u32 = 50;

/// Maximum resonant frequency in Hz.
pub const MAX_RESONAT_FREQ_HZ: u32 = 300;

/// Maximum sequence id.
pub const SEQ_ID_MAX: u8 = 15;

/// Maximum sequence loop count.
pub const SEQ_LOOP_MAX: u8 = 15;

/// Default GPI sequence id.
pub const GPI_SEQ_ID_DFT: u8 = 0;

/// Maximum GPI sequence id.
pub const GPI_SEQ_ID_MAX: u8 = 2;

/// Size of the waveform memory in bytes.
pub const SNP_MEM_SIZE: usize = 100;

/// Marks a register value that initialisation leaves alone.
pub const SKIP_INIT: u16 = 0x100;

/// Haptic actuator type.
#[derive(Debug, Clone, Copy, PartialEq, Eq)]
pub enum DeviceType {
    /// Linear resonant actuator.
    LRA,
    /// Eccentric rotating mass (bar).
    ErmBar,
    /// Eccentric rotating mass (coin).
    ErmCoin,
}

impl DeviceType {
    /// The ACTUATOR_TYPE bit: clear for an LRA, set for either ERM.
    pub fn to_bit(&self) -> (r: bool)
        ensures
            r == !(*self is LRA),
    {
        match self {
            DeviceType::LRA => false,
            DeviceType::ErmBar | DeviceType::ErmCoin => true,
        }
    }
}

/// Operation mode of the haptic driver.
#[derive(Debug, Clone, Copy, PartialEq, Eq)]
pub enum OperationMode {
    /// Inactive.
    Inactive,
    /// Direct register override.
    DRO,
    /// PWM input.
    PWM,
    /// Register-triggered waveform memory.
    RTWM,
    /// Edge-triggered waveform memory.
    ETWM,
}

/// The OPERATION_MODE field of each mode.
pub open spec fn operation_mode_value(m: OperationMode) -> u8 {
    match m {
        OperationMode::Inactive => 0,
        OperationMode::DRO => 1,
        OperationMode::PWM => 2,
        OperationMode::RTWM => 3,
        OperationMode::ETWM => 4,
    }
}

impl OperationMode {
    /// The register value of this mode.
    pub fn to_register_value(&self) -> (r: u8)
        ensures
            r == operation_mode_value(*self),
    {
        match self {
            OperationMode::Inactive => 0,
            OperationMode::DRO => 1,
            OperationMode::PWM => 2,
            OperationMode::RTWM => 3,
            OperationMode::ETWM => 4,
        }
    }
}

/// Edge that triggers a GPI.
#[derive(Debug, Clone, Copy, PartialEq, Eq)]
pub enum GpiPolarity {
    /// Rising edge.
    RisingEdge,
    /// Falling edge.
    FallingEdge,
    /// Both edges.
    BothEdge,
}

/// The GPI polarity field of each edge choice.
pub open spec fn gpi_polarity_value(p: GpiPolarity) -> u8 {
    match p {
        GpiPolarity::RisingEdge => 0,
        GpiPolarity::FallingEdge => 1,
        GpiPolarity::BothEdge => 2,
    }
}

impl GpiPolarity {
    /// The register value of this polarity.
    pub fn to_register_value(&self) -> (r: u8)
        ensures
            r == gpi_polarity_value(*self),
    {
        match self {
            GpiPolarity::RisingEdge => 0,
            GpiPolarity::FallingEdge => 1,
            GpiPolarity::BothEdge => 2,
        }
    }
}

/// Whether a GPI plays one pattern or steps through several.
#[derive(Debug, Clone, Copy, PartialEq, Eq)]
pub enum GpiMode {
    /// Single pattern.
    SinglePattern,
    /// Multiple patterns.
    MultiPattern,
}

impl GpiMode {
    /// The GPI mode bit: set for multiple patterns.
    pub fn to_register_value(&self) -> (r: bool)
        ensures
            r == (*self is MultiPattern),
    {
        match self {
            GpiMode::SinglePattern => false,
            GpiMode::MultiPattern => true,
        }
    }
}

/// Configuration of one GPI pin.
#[derive(Debug, Clone, Copy)]
pub struct GpiConfig {
    /// Sequence id to trigger.
    pub seq_id: u8,
    /// GPI mode.
    pub mode: GpiMode,
    /// GPI polarity.
    pub polarity: GpiPolarity,
}

impl Default for GpiConfig {
    fn default() -> (r: Self)
        ensures
            r == (GpiConfig {
                seq_id: GPI_SEQ_ID_DFT,
                mode: GpiMode::SinglePattern,
                polarity: GpiPolarity::RisingEdge,
            }),
    {
        GpiConfig {
            seq_id: GPI_SEQ_ID_DFT,
            mode: GpiMode::SinglePattern,
            polarity: GpiPolarity::RisingEdge,
        }
    }
}

/// The voltage register value for `val` microvolts: one more than the number
/// of whole 23.4 mV steps, capped at 255.
pub open spec fn voltage_register(val: u32) -> u16 {
    let steps: int = val / VOLTAGE_RATE_STEP + 1;
    if steps > 0xFF {
        0xFF
    } else {
        steps as u16
    }
}

/// The IMAX value for `val` microamps: one more than the number of whole
/// 7.2 mA steps above 28.6 mA (none below it).
pub open spec fn imax_register(val: u32) -> u32 {
    let above: u32 = if val > IMAX_OFFSET {
        (val - IMAX_OFFSET) as u32
    } else {
        0
    };
    (above / IMAX_STEP + 1) as u32
}

/// The LRA period for a resonant frequency of `hz` Hz, in 1.333 us units.
pub open spec fn lra_period(hz: u32) -> u32 {
    (1_000_000_000int / (hz * 1333)) as u32
}

/// The high and low resonant-frequency bytes for `hz` Hz: the period's bits
/// 14..7 and 6..0, or the defaults outside the open range 50..300 Hz.
pub open spec fn resonant_freq_registers(hz: u32) -> (u16, u16) {
    if MIN_RESONAT_FREQ_HZ < hz < MAX_RESONAT_FREQ_HZ {
        (((lra_period(hz) >> 7u32) & 0xFFu32) as u16, (lra_period(hz) & 0x7Fu32) as u16)
    } else {
        (RESONT_FREQH_DFT as u16, RESONT_FREQL_DFT as u16)
    }
}

/// Configuration of a DA728x device.
#[derive(Debug, Clone, Copy)]
pub struct DeviceConfig {
    /// Device type (LRA, ERM bar, ERM coin).
    pub dev_type: Option<DeviceType>,
    /// Operation mode for constant effects.
    pub const_op_mode: OperationMode,
    /// Operation mode for periodic effects.
    pub periodic_op_mode: OperationMode,
    /// Nominal maximum voltage (in device units, or `SKIP_INIT`).
    pub nommax: u16,
    /// Absolute maximum voltage (in device units, or `SKIP_INIT`).
    pub absmax: u16,
    /// Maximum current (IMAX units).
    pub imax: u32,
    /// Impedance in micro-ohms.
    pub impd: u32,
    /// Resonant frequency high byte (or `SKIP_INIT`).
    pub resonant_freq_h: u16,
    /// Resonant frequency low byte (or `SKIP_INIT`).
    pub resonant_freq_l: u16,
    /// Back-EMF sensing.
    pub bemf_sense_en: bool,
    /// Frequency tracking.
    pub freq_track_en: bool,
    /// Acceleration.
    pub acc_en: bool,
    /// Rapid stop.
    pub rapid_stop_en: bool,
    /// Amplitude PID control.
    pub amp_pid_en: bool,
    /// Pre-stored sequence id.
    pub ps_seq_id: u8,
    /// Pre-stored sequence loop count.
    pub ps_seq_loop: u8,
    /// Configuration of the three GPIs.
    pub gpi_ctl: [GpiConfig; 3],
    /// Waveform memory contents, if given.
    pub mem_data: Option<[u8; SNP_MEM_SIZE]>,
}

impl DeviceConfig {
    /// Whether every field holds its default value.
    pub open spec fn is_default(&self) -> bool {
        &&& self.dev_type is None
        &&& self.const_op_mode == OperationMode::DRO
        &&& self.periodic_op_mode == OperationMode::RTWM
        &&& self.nommax == SKIP_INIT
        &&& self.absmax == SKIP_INIT
        &&& self.imax == IMAX_DEFAULT
        &&& self.impd == IMPD_DEFAULT
        &&& self.resonant_freq_h == SKIP_INIT
        &&& self.resonant_freq_l == SKIP_INIT
        &&& !self.bemf_sense_en
        &&& !self.freq_track_en
        &&& !self.acc_en
        &&& !self.rapid_stop_en
        &&& !self.amp_pid_en
        &&& self.ps_seq_id == 0
        &&& self.ps_seq_loop == 0
        &&& forall|i: int|
            0 <= i < 3 ==> #[trigger] self.gpi_ctl@[i] == (GpiConfig {
                seq_id: i as u8,
                mode: GpiMode::SinglePattern,
                polarity: GpiPolarity::RisingEdge,
            })
        &&& self.mem_data is None
    }
}

impl Default for DeviceConfig {
    fn default() -> (r: Self)
        ensures
            r.is_default(),
    {
        DeviceConfig {
            dev_type: None,
            const_op_mode: OperationMode::DRO,
            periodic_op_mode: OperationMode::RTWM,
            nommax: SKIP_INIT,
            absmax: SKIP_INIT,
            imax: IMAX_DEFAULT as u32,
            impd: IMPD_DEFAULT,
            resonant_freq_h: SKIP_INIT,
            resonant_freq_l: SKIP_INIT,
            bemf_sense_en: false,
            freq_track_en: false,
            acc_en: false,
            rapid_stop_en: false,
            amp_pid_en: false,
            ps_seq_id: 0,
            ps_seq_loop: 0,
            gpi_ctl: [
                GpiConfig {
                    seq_id: 0,
                    mode: GpiMode::SinglePattern,
                    polarity: GpiPolarity::RisingEdge,
                },
                GpiConfig {
                    seq_id: 1,
                    mode: GpiMode::SinglePattern,
                    polarity: GpiPolarity::RisingEdge,
                },
                GpiConfig {
                    seq_id: 2,
                    mode: GpiMode::SinglePattern,
                    polarity: GpiPolarity::RisingEdge,
                },
            ],
            mem_data: None,
        }
    }
}

impl DeviceConfig {
    /// A configuration with the default values.
    pub fn new() -> (r: Self)
        ensures
            r.is_default(),
    {
        Self::default()
    }

    /// Sets the device type.
    pub fn with_device_type(self, dev_type: DeviceType) -> (r: Self)
        ensures
            r == (DeviceConfig { dev_type: Some(dev_type), ..self }),
    {
        DeviceConfig { dev_type: Some(dev_type), ..self }
    }

    /// Sets the nominal maximum voltage from microvolts; values of 6 V or more
    /// are ignored.
    pub fn with_nom_microvolt(self, val: u32) -> (r: Self)
        ensures
            val < VOLTAGE_RATE_MAX ==> r == (DeviceConfig {
                nommax: voltage_register(val),
                ..self
            }),
            val >= VOLTAGE_RATE_MAX ==> r == self,
    {
        if val < VOLTAGE_RATE_MAX {
            DeviceConfig { nommax: Self::voltage_steps(val), ..self }
        } else {
            self
        }
    }

    /// Sets the absolute maximum voltage from microvolts; values of 6 V or
    /// more are ignored.
    pub fn with_abs_max_microvolt(self, val: u32) -> (r: Self)
        ensures
            val < VOLTAGE_RATE_MAX ==> r == (DeviceConfig {
                absmax: voltage_register(val),
                ..self
            }),
            val >= VOLTAGE_RATE_MAX ==> r == self,
    {
        if val < VOLTAGE_RATE_MAX {
            DeviceConfig { absmax: Self::voltage_steps(val), ..self }
        } else {
            self
        }
    }

    fn voltage_steps(val: u32) -> (r: u16)
        ensures
            r == voltage_register(val),
    {
        let steps: u32 = val / VOLTAGE_RATE_STEP + 1;
        if steps > 0xFF {
            0xFF
        } else {
            steps as u16
        }
    }

    /// Sets the maximum current from microamps; values of 252 mA or more are ignored.
    pub fn with_imax_microamp(self, val: u32) -> (r: Self)
        ensures
            val < IMAX_LIMIT ==> r == (DeviceConfig { imax: imax_register(val), ..self }),
            val >= IMAX_LIMIT ==> r == self,
    {
        if val < IMAX_LIMIT {
            DeviceConfig { imax: val.saturating_sub(IMAX_OFFSET) / IMAX_STEP + 1, ..self }
        } else {
            self
        }
    }

    /// Sets the impedance in micro-ohms; values above 1500 ohm are ignored.
    pub fn with_impd_micro_ohms(self, val: u32) -> (r: Self)
        ensures
            val <= IMPD_MAX ==> r == (DeviceConfig { impd: val, ..self }),
            val > IMPD_MAX ==> r == self,
    {
        if val <= IMPD_MAX {
            DeviceConfig { impd: val, ..self }
        } else {
            self
        }
    }

    /// Sets the resonant frequency from Hz; outside the open range 50..300 Hz
    /// the default frequency bytes are set.
    pub fn with_resonant_freq_hz(self, val: u32) -> (r: Self)
        ensures
            r == (DeviceConfig {
                resonant_freq_h: resonant_freq_registers(val).0,
                resonant_freq_l: resonant_freq_registers(val).1,
                ..self
            }),
    {
        if val < MAX_RESONAT_FREQ_HZ && val > MIN_RESONAT_FREQ_HZ {
            let freq_val: u32 = 1_000_000_000 / (val * 1333);
            DeviceConfig {
                resonant_freq_h: ((freq_val >> 7) & 0xFF) as u16,
                resonant_freq_l: (freq_val & 0x7F) as u16,
                ..self
            }
        } else {
            DeviceConfig {
                resonant_freq_h: RESONT_FREQH_DFT as u16,
                resonant_freq_l: RESONT_FREQL_DFT as u16,
                ..self
            }
        }
    }

    /// Sets back-EMF sensing.
    pub fn with_bemf_sense(self, enable: bool) -> (r: Self)
        ensures
            r == (DeviceConfig { bemf_sense_en: enable, ..self }),
    {
        DeviceConfig { bemf_sense_en: enable, ..self }
    }

    /// Sets frequency tracking.
    pub fn with_freq_track(self, enable: bool) -> (r: Self)
        ensures
            r == (DeviceConfig { freq_track_en: enable, ..self }),
    {
        DeviceConfig { freq_track_en: enable, ..self }
    }

    /// Sets acceleration.
    pub fn with_acceleration(self, enable: bool) -> (r: Self)
        ensures
            r == (DeviceConfig { acc_en: enable, ..self }),
    {
        DeviceConfig { acc_en: enable, ..self }
    }

    /// Sets rapid stop.
    pub fn with_rapid_stop(self, enable: bool) -> (r: Self)
        ensures
            r == (DeviceConfig { rapid_stop_en: enable, ..self }),
    {
        DeviceConfig { rapid_stop_en: enable, ..self }
    }

    /// Sets amplitude PID control.
    pub fn with_amp_pid(self, enable: bool) -> (r: Self)
        ensures
            r == (DeviceConfig { amp_pid_en: enable, ..self }),
    {
        DeviceConfig { amp_pid_en: enable, ..self }
    }

    /// Sets the pre-stored sequence id; ids above 15 are ignored.
    pub fn with_ps_seq_id(self, id: u8) -> (r: Self)
        ensures
            id <= SEQ_ID_MAX ==> r == (DeviceConfig { ps_seq_id: id, ..self }),
            id > SEQ_ID_MAX ==> r == self,
    {
        if id <= SEQ_ID_MAX {
            DeviceConfig { ps_seq_id: id, ..self }
        } else {
            self
        }
    }

    /// Sets the pre-stored sequence loop count; counts above 15 are ignored.
    pub fn with_ps_seq_loop(self, count: u8) -> (r: Self)
        ensures
            count <= SEQ_LOOP_MAX ==> r == (DeviceConfig { ps_seq_loop: count, ..self }),
            count > SEQ_LOOP_MAX ==> r == self,
    {
        if count <= SEQ_LOOP_MAX {
            DeviceConfig { ps_seq_loop: count, ..self }
        } else {
            self
        }
    }

    /// Sets the configuration of GPI `gpi_num` (0..=2); other numbers are ignored.
    pub fn with_gpi_config(self, gpi_num: usize, config: GpiConfig) -> (r: Self)
        ensures
            gpi_num < 3 ==> r == (DeviceConfig {
                gpi_ctl: r.gpi_ctl,
                ..self
            }) && r.gpi_ctl@ == self.gpi_ctl@.update(gpi_num as int, config),
            gpi_num >= 3 ==> r == self,
    {
        let mut r = self;
        if gpi_num < 3 {
            r.gpi_ctl[gpi_num] = config;
        }
        r
    }

    /// Sets the waveform memory contents.
    pub fn with_mem_data(self, data: [u8; SNP_MEM_SIZE]) -> (r: Self)
        ensures
            r == (DeviceConfig { mem_data: Some(data), ..self }),
    {
        DeviceConfig { mem_data: Some(data), ..self }
    }
}

} // verus!
