use ebc_hub::ebc::constants::{DeviceType, UnknownDeviceCode, END_BYTE, INBOUND_FRAME_SIZE, OUTBOUND_FRAME_SIZE, START_BYTE};
use ebc_hub::ebc::device_capabilities::DeviceCapabilities;
use ebc_hub::ebc::report::{DeviceMode, StatusReportType};

#[test]
fn frame_constants() {
    assert_eq!(INBOUND_FRAME_SIZE, 19);
    assert_eq!(OUTBOUND_FRAME_SIZE, 10);
    assert_eq!(START_BYTE, 0xfa);
    assert_eq!(END_BYTE, 0xf8);
}

#[test]
fn device_types_roundtrip_their_codes() {
    for t in [DeviceType::EbcA05, DeviceType::EbcA10H, DeviceType::EbcA20] {
        assert_eq!(DeviceType::try_from(t.code()), Ok(t));
    }
    assert_eq!(DeviceType::EbcA20.code(), 0x09);
    assert_eq!(DeviceType::try_from(0x07), Err(UnknownDeviceCode { code: 0x07 }));
    assert_eq!(DeviceType::EbcA20.to_string(), "EBC-A20");
    assert_eq!(DeviceType::EbcA10H.to_string(), "EBC-A10H");
    assert_eq!(DeviceType::EbcA05.to_string(), "EBC-A05");
}

#[test]
fn modes_and_report_codes() {
    assert_eq!(DeviceMode::DischargeConstantCurrent.to_string(), "Discharge Constant Current");
    assert_eq!(DeviceMode::DischargeConstantPower.to_string(), "Discharge Constant Power");
    assert_eq!(DeviceMode::ChargeConstantVoltage.to_string(), "Charge Constant Voltage");
    assert_eq!(StatusReportType::DischargeConstantCurrentOnReport.code(), 0x0A);
    assert_eq!(StatusReportType::ChargeConstantCurrentOnFirmwareReport.code(), 0x70);
    assert_eq!(StatusReportType::DischargeConstantPowerEnd.code(), 0x15);
}

#[test]
fn ebc_a20_capabilities() {
    let c = DeviceCapabilities::from(DeviceType::EbcA20);
    assert_eq!((c.min_discharge_current_ma(), c.max_discharge_current_ma()), (10, 20000));
    assert_eq!((c.min_charge_current_ma(), c.max_charge_current_ma()), (10, 5000));
    assert_eq!((c.min_charge_cutoff_current_ma(), c.max_charge_cutoff_current_ma()), (10, 5000));
    assert_eq!((c.min_power_w(), c.max_power_w()), (1, 85));
    assert_eq!((c.min_voltage_mv(), c.max_voltage_mv()), (10, 30000));
    assert_eq!((c.min_cutoff_time_min(), c.max_cutoff_time_min()), (0, 999));
    assert_eq!((c.auto_mode_time_min_mins(), c.auto_mode_time_max_mins()), (0, 10));
    assert!(c.check_constant_current_discharge_command_parameters(1000, 3000, 999).is_ok());
    assert!(c.check_constant_power_discharge_command_parameters(0, 3000, 1).is_err());
    assert!(c.check_constant_current_voltage_charge_command_parameters(10, 30000, 5000).is_ok());
}
