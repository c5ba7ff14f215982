use da728x::config::{
    check_custom_waveform, configured, plan_configuration, plan_frequency, plan_override,
    ActuatorConfig, ActuatorType, DeviceConfig as ModeConfig, DrivingMode,
    OperationMode as Mode,
};
use da728x::errors::Error;
use da728x::registers::{
    actuator3_value, lra_per_l_value, top_cfg1_value, top_ctl1_with_mode, Register, CHIP_REV,
};
use da728x::types::{
    DeviceConfig, DeviceType, GpiConfig, GpiMode, GpiPolarity, OperationMode, IMAX_DEFAULT,
    IMPD_DEFAULT, SKIP_INIT,
};
use da728x::Variant;

fn actuator() -> ActuatorConfig {
    ActuatorConfig {
        actuator_type: ActuatorType::LRA,
        nominal_max_mV: 2000,
        absolute_max_mV: 2500,
        max_current_mA: 100,
        impedance_mOhm: 12000,
        frequency_Hz: 170,
    }
}

fn mode(operation_mode: Mode, driving_mode: DrivingMode, acceleration: bool) -> ModeConfig {
    ModeConfig { operation_mode, driving_mode, acceleration, rapid_stop: false }
}

#[test]
fn device_config_defaults() {
    let c = DeviceConfig::new();
    assert!(c.dev_type.is_none());
    assert_eq!(c.const_op_mode, OperationMode::DRO);
    assert_eq!(c.periodic_op_mode, OperationMode::RTWM);
    assert_eq!(c.nommax, SKIP_INIT);
    assert_eq!(c.absmax, SKIP_INIT);
    assert_eq!(c.imax, IMAX_DEFAULT as u32);
    assert_eq!(c.impd, IMPD_DEFAULT);
    assert_eq!(c.resonant_freq_h, SKIP_INIT);
    assert!(!c.acc_en);
    for i in 0..3 {
        assert_eq!(c.gpi_ctl[i].seq_id as usize, i);
        assert_eq!(c.gpi_ctl[i].mode, GpiMode::SinglePattern);
        assert_eq!(c.gpi_ctl[i].polarity, GpiPolarity::RisingEdge);
    }
    assert!(c.mem_data.is_none());
}

#[test]
fn device_config_voltages() {
    let c = DeviceConfig::new().with_nom_microvolt(3_000_000).with_abs_max_microvolt(0);
    assert_eq!(c.nommax, 129);
    assert_eq!(c.absmax, 1);
    let c = DeviceConfig::new().with_nom_microvolt(6_000_000).with_abs_max_microvolt(5_999_999);
    assert_eq!(c.nommax, SKIP_INIT);
    assert_eq!(c.absmax, 0xFF);
}

#[test]
fn device_config_current_and_impedance() {
    let c = DeviceConfig::new().with_imax_microamp(100_000);
    assert_eq!(c.imax, 10);
    let c = DeviceConfig::new().with_imax_microamp(10_000);
    assert_eq!(c.imax, 1);
    let c = DeviceConfig::new().with_imax_microamp(252_000);
    assert_eq!(c.imax, IMAX_DEFAULT as u32);
    let c = DeviceConfig::new().with_impd_micro_ohms(1_500_000_000);
    assert_eq!(c.impd, 1_500_000_000);
    let c = DeviceConfig::new().with_impd_micro_ohms(1_500_000_001);
    assert_eq!(c.impd, IMPD_DEFAULT);
}

#[test]
fn device_config_resonant_frequency() {
    let c = DeviceConfig::new().with_resonant_freq_hz(170);
    assert_eq!((c.resonant_freq_h, c.resonant_freq_l), (34, 60));
    let c = DeviceConfig::new().with_resonant_freq_hz(300);
    assert_eq!((c.resonant_freq_h, c.resonant_freq_l), (0x39, 0x32));
    let c = DeviceConfig::new().with_resonant_freq_hz(50);
    assert_eq!((c.resonant_freq_h, c.resonant_freq_l), (0x39, 0x32));
}

#[test]
fn device_config_flags_and_ids() {
    let gpi = GpiConfig { seq_id: 2, mode: GpiMode::MultiPattern, polarity: GpiPolarity::BothEdge };
    let c = DeviceConfig::default()
        .with_device_type(DeviceType::ErmCoin)
        .with_bemf_sense(true)
        .with_freq_track(true)
        .with_acceleration(true)
        .with_rapid_stop(true)
        .with_amp_pid(true)
        .with_ps_seq_id(15)
        .with_ps_seq_loop(16)
        .with_gpi_config(1, gpi)
        .with_gpi_config(3, gpi)
        .with_mem_data([7u8; 100]);
    assert_eq!(c.dev_type, Some(DeviceType::ErmCoin));
    assert!(c.bemf_sense_en && c.freq_track_en && c.acc_en && c.rapid_stop_en && c.amp_pid_en);
    assert_eq!(c.ps_seq_id, 15);
    assert_eq!(c.ps_seq_loop, 0);
    assert_eq!(c.gpi_ctl[1].seq_id, 2);
    assert_eq!(c.gpi_ctl[0].seq_id, 0);
    assert_eq!(c.gpi_ctl[2].seq_id, 2);
    assert_eq!(c.gpi_ctl[2].mode, GpiMode::SinglePattern);
    assert_eq!(c.mem_data.unwrap()[99], 7);
    let c = c.with_ps_seq_id(16).with_ps_seq_loop(15);
    assert_eq!(c.ps_seq_id, 15);
    assert_eq!(c.ps_seq_loop, 15);
}

#[test]
fn register_values_of_enums() {
    assert!(!DeviceType::LRA.to_bit());
    assert!(DeviceType::ErmBar.to_bit());
    assert_eq!(OperationMode::Inactive.to_register_value(), 0);
    assert_eq!(OperationMode::ETWM.to_register_value(), 4);
    assert_eq!(GpiPolarity::BothEdge.to_register_value(), 2);
    assert!(GpiMode::MultiPattern.to_register_value());
    assert!(!GpiMode::SinglePattern.to_register_value());
    assert_eq!(Mode::RTWM_MODE.register_value(), 3);
    assert_eq!(ActuatorType::ERM.register_value(), 1);
}

#[test]
fn configuration_plan_for_tracking_lra() {
    let plan = plan_configuration(&actuator(), &mode(Mode::DRO_MODE, DrivingMode::FREQUENCY_TRACK, true))
        .unwrap();
    assert_eq!(plan.actuator_type, 0);
    assert!(plan.bemf_sense_en && plan.freq_track_en && plan.acceleration_en);
    assert!(!plan.rapid_stop_en && !plan.freeze_delay && !plan.custom_waveform);
    assert_eq!(plan.nominal_max, 85);
    assert_eq!(plan.absolute_max, 106);
    assert_eq!(plan.imax, 9);
    assert_eq!(plan.calib_v2i, 96);
    assert_eq!((plan.lra_period_h, plan.lra_period_l), (34, 60));
    assert_eq!(top_cfg1_value(&plan), 0x1C);
}

#[test]
fn configuration_plan_for_custom_waveform() {
    let plan = plan_configuration(&actuator(), &mode(Mode::RTWM_MODE, DrivingMode::CUSTOM_WAVEFORM, false))
        .unwrap();
    assert!(!plan.bemf_sense_en && !plan.freq_track_en && !plan.acceleration_en);
    assert!(plan.freeze_delay && plan.custom_waveform);
    assert_eq!(top_cfg1_value(&plan), 0x00);
}

#[test]
fn configuration_errors() {
    let wideband_accel = mode(Mode::DRO_MODE, DrivingMode::WIDEBAND, true);
    assert!(matches!(plan_configuration(&actuator(), &wideband_accel), Err(Error::WrongMode)));
    let track = mode(Mode::DRO_MODE, DrivingMode::FREQUENCY_TRACK, false);
    let mut a = actuator();
    a.nominal_max_mV = 6001;
    assert!(matches!(plan_configuration(&a, &track), Err(Error::InvalidValue)));
    let mut a = actuator();
    a.max_current_mA = 253;
    assert!(matches!(plan_configuration(&a, &track), Err(Error::InvalidValue)));
    let mut a = actuator();
    a.max_current_mA = 28;
    assert!(matches!(plan_configuration(&a, &track), Err(Error::InvalidValue)));
    let mut a = actuator();
    a.impedance_mOhm = 50_000;
    assert!(matches!(plan_configuration(&a, &track), Err(Error::InvalidValue)));
    let mut a = actuator();
    a.frequency_Hz = 300;
    assert!(matches!(plan_configuration(&a, &track), Err(Error::InvalidValue)));
    let mut a = actuator();
    a.nominal_max_mV = 6000;
    assert_eq!(plan_configuration(&a, &track).unwrap().nominal_max, 0);
}

#[test]
fn frequency_override_and_mode_checks() {
    let track = mode(Mode::DRO_MODE, DrivingMode::FREQUENCY_TRACK, true);
    let wide = mode(Mode::PWM_MODE, DrivingMode::WIDEBAND, false);
    assert_eq!(plan_frequency(&track, 170).unwrap(), (34, 60));
    assert!(matches!(plan_frequency(&track, 300), Err(Error::InvalidValue)));
    assert!(plan_frequency(&wide, 25).is_ok());
    assert!(matches!(plan_frequency(&wide, 24), Err(Error::InvalidValue)));
    assert!(matches!(plan_frequency(&wide, 1024), Err(Error::InvalidValue)));

    assert!(matches!(plan_override(&track, -1), Err(Error::InvalidValue)));
    assert_eq!(plan_override(&track, 42).unwrap(), 42);
    assert!(matches!(plan_override(&wide, 42), Err(Error::WrongMode)));
    let dro = mode(Mode::DRO_MODE, DrivingMode::WIDEBAND, false);
    assert_eq!(plan_override(&dro, -1).unwrap(), 0xFF);

    assert!(matches!(configured(&None, &Some(track)), Err(Error::NotConfigured)));
    assert!(matches!(configured(&Some(actuator()), &None), Err(Error::NotConfigured)));
    assert!(configured(&Some(actuator()), &Some(track)).is_ok());

    assert!(matches!(check_custom_waveform(&track), Err(Error::WrongMode)));
    let custom = mode(Mode::RTWM_MODE, DrivingMode::CUSTOM_WAVEFORM, false);
    assert!(check_custom_waveform(&custom).is_ok());
}

#[test]
fn chip_revision_checks() {
    let rev = CHIP_REV::from(0xAB);
    assert_eq!(rev.CHIP_REV_MINOR(), 0xB);
    assert_eq!(rev.CHIP_REV_MAJOR(), 0xA);
    assert_eq!(rev.into_bits(), 0xAB);
    assert!(Variant::DA7280.check_chip_rev(rev).is_ok());
    assert!(matches!(Variant::DA7281.check_chip_rev(rev), Err(Error::VariantMismatch)));
    assert!(Variant::DA7282.check_chip_rev(CHIP_REV::from_bits(0xAD)).is_ok());
    assert!(matches!(
        Variant::DA7280.check_chip_rev(CHIP_REV::from_bits(0xBA)),
        Err(Error::VariantMismatch)
    ));
}

#[test]
fn register_bytes() {
    assert_eq!(Register::CHIP_REV.address(), 0x00);
    assert_eq!(Register::TOP_CTL1.address(), 0x22);
    assert_eq!(top_ctl1_with_mode(0xFF, Mode::RTWM_MODE), 0xFB);
    assert_eq!(top_ctl1_with_mode(0x18, Mode::INACTIVE), 0x18);
    assert_eq!(lra_per_l_value(0xFF), 0x7F);
    assert_eq!(actuator3_value(0x3F), 0x1F);
}
