use vstd::prelude::*;

use crate::ebc::constants::DeviceType;

verus! {

/// The program a device runs or was last set to.
#[derive(Clone, Debug, Copy, PartialEq, Eq, Structural)]
pub enum DeviceMode {
    DischargeConstantCurrent,
    DischargeConstantPower,
    ChargeConstantVoltage,
}

/// The display name of each mode.
pub open spec fn spec_device_mode_name(m: DeviceMode) -> Seq<char> {
    match m {
        DeviceMode::DischargeConstantCurrent => "Discharge Constant Current"@,
        DeviceMode::DischargeConstantPower => "Discharge Constant Power"@,
        DeviceMode::ChargeConstantVoltage => "Charge Constant Voltage"@,
    }
}

impl DeviceMode {
    /// The display name of the mode, such as "Discharge Constant Power".
    pub fn to_string(&self) -> (s: String)
        ensures
            s@ == spec_device_mode_name(*self),
    {
        match self {
            Self::DischargeConstantCurrent => String::from_str("Discharge Constant Current"),
            Self::DischargeConstantPower => String::from_str("Discharge Constant Power"),
            Self::ChargeConstantVoltage => String::from_str("Charge Constant Voltage"),
        }
    }
}

/// The kinds of status report that open an inbound payload.
#[derive(Clone, Debug, Copy, PartialEq, Eq, Structural)]
pub enum StatusReportType {
    DischargeConstantCurrentOnReport,
    DischargeConstantCurrentOnFirmwareReport,
    DischargeConstantCurrentOffReport,
    DischargeConstantCurrentOffFirmwareReport,
    DischargeConstantCurrentEnd,
    DischargeConstantPowerOnReport,
    DischargeConstantPowerOnFirmwareReport,
    DischargeConstantPowerOffReport,
    DischargeConstantPowerOffFirmwareReport,
    DischargeConstantPowerEnd,
    ChargeConstantCurrentOnReport,
    ChargeConstantCurrentOnFirmwareReport,
    ChargeConstantCurrentOffReport,
    ChargeConstantCurrentOffFirmwareReport,
    ChargeConstantCurrentEnd,
}

/// The command byte of each status report kind.
pub open spec fn spec_status_code(t: StatusReportType) -> u8 {
    match t {
        StatusReportType::DischargeConstantCurrentOnReport => 0x0A,
        StatusReportType::DischargeConstantCurrentOnFirmwareReport => 0x6E,
        StatusReportType::DischargeConstantCurrentOffReport => 0x00,
        StatusReportType::DischargeConstantCurrentOffFirmwareReport => 0x64,
        StatusReportType::DischargeConstantCurrentEnd => 0x14,
        StatusReportType::DischargeConstantPowerOnReport => 0x0B,
        StatusReportType::DischargeConstantPowerOnFirmwareReport => 0x6F,
        StatusReportType::DischargeConstantPowerOffReport => 0x01,
        StatusReportType::DischargeConstantPowerOffFirmwareReport => 0x65,
        StatusReportType::DischargeConstantPowerEnd => 0x15,
        StatusReportType::ChargeConstantCurrentOnReport => 0x0C,
        StatusReportType::ChargeConstantCurrentOnFirmwareReport => 0x70,
        StatusReportType::ChargeConstantCurrentOffReport => 0x02,
        StatusReportType::ChargeConstantCurrentOffFirmwareReport => 0x66,
        StatusReportType::ChargeConstantCurrentEnd => 0x16,
    }
}

impl StatusReportType {
    /// The command byte of this report kind.
    pub fn code(&self) -> (c: u8)
        ensures
            c == spec_status_code(*self),
    {
        match self {
            StatusReportType::DischargeConstantCurrentOnReport => 0x0A,
            StatusReportType::DischargeConstantCurrentOnFirmwareReport => 0x6E,
            StatusReportType::DischargeConstantCurrentOffReport => 0x00,
            StatusReportType::DischargeConstantCurrentOffFirmwareReport => 0x64,
            StatusReportType::DischargeConstantCurrentEnd => 0x14,
            StatusReportType::DischargeConstantPowerOnReport => 0x0B,
            StatusReportType::DischargeConstantPowerOnFirmwareReport => 0x6F,
            StatusReportType::DischargeConstantPowerOffReport => 0x01,
            StatusReportType::DischargeConstantPowerOffFirmwareReport => 0x65,
            StatusReportType::DischargeConstantPowerEnd => 0x15,
            StatusReportType::ChargeConstantCurrentOnReport => 0x0C,
            StatusReportType::ChargeConstantCurrentOnFirmwareReport => 0x70,
            StatusReportType::ChargeConstantCurrentOffReport => 0x02,
            StatusReportType::ChargeConstantCurrentOffFirmwareReport => 0x66,
            StatusReportType::ChargeConstantCurrentEnd => 0x16,
        }
    }
}

/// The report that the device sends while idle and shortly after a start.
#[derive(Clone, Debug)]
pub struct FirmwareReport {
    pub device_mode: DeviceMode,
    pub in_progress: bool,
    pub current_ma: u16,
    pub voltage_mv: u16,
    pub milli_ampere_hours: u16,
    /// Always 0 on the devices seen so far.
    pub unknown: u16,
    pub firmware_version: String,
    /// Calibration parameter, 2988 on the devices seen so far.
    pub unknown1: u16,
    /// Calibration parameter, 2087 on the devices seen so far.
    pub unknown2: u16,
    pub device_type: DeviceType,
}

/// Status of a constant current, constant voltage charge.
#[derive(Clone, Copy, Debug)]
pub struct ChargeReport {
    pub in_progress: bool,
    pub current_ma: u16,
    pub voltage_mv: u16,
    pub milli_ampere_hours: u16,
    /// Always 0 on the devices seen so far.
    pub unknown: u16,
    pub charge_current_ma: u16,
    pub charge_voltage_mv: u16,
    pub cutoff_current_ma: u16,
    pub device_type: DeviceType,
}

/// Status of a constant current discharge.
#[derive(Clone, Copy, Debug)]
pub struct DischargeConstantCurrentReport {
    pub in_progress: bool,
    pub current_ma: u16,
    pub voltage_mv: u16,
    pub milli_ampere_hours: u16,
    /// Always 0 on the devices seen so far.
    pub unknown: u16,
    pub discharge_current_ma: u16,
    pub cutoff_voltage_mv: u16,
    pub cutoff_time_min: u16,
    pub device_type: DeviceType,
}

/// Status of a constant power discharge.
#[derive(Clone, Copy, Debug)]
pub struct DischargeConstantPowerReport {
    pub in_progress: bool,
    pub current_ma: u16,
    pub voltage_mv: u16,
    pub milli_ampere_hours: u16,
    /// Always 0 on the devices seen so far.
    pub unknown: u16,
    pub discharge_power_w: u16,
    pub cutoff_voltage_mv: u16,
    pub cutoff_time_min: u16,
    pub device_type: DeviceType,
}

} // verus!
