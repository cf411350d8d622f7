use vstd::prelude::*;

use crate::ebc::codec::{lemma_base240_roundtrip, spec_encode_base240};
use crate::ebc::command::{spec_frame, spec_payload3};
use crate::ebc::device_capabilities::{
    limits_encodable, spec_check_constant_current_discharge, spec_check_constant_current_voltage_charge,
    spec_check_constant_power_discharge, CapabilityError, CapabilityLimits, DeviceCapabilities,
};
use crate::ebc::frame::{spec_kind_encodable, spec_outbound_bytes, spec_outbound_payload, OutboundFrame, OutboundFrameKind};

verus! {

/// A command that a running device is given.
#[derive(Debug, Clone, Copy, PartialEq, Eq, Structural)]
pub enum DeviceCommand {
    Stop,
    StartConstantCurrentDischarge { discharge_current_ma: u16, cutoff_voltage_mv: u16, cutoff_time_min: u16 },
    AdjustConstantCurrentDischarge { discharge_current_ma: u16, cutoff_voltage_mv: u16, cutoff_time_min: u16 },
    ContinueConstantCurrentDischarge { discharge_current_ma: u16, cutoff_voltage_mv: u16, cutoff_time_min: u16 },
    StartConstantPowerDischarge { discharge_power_w: u16, cutoff_voltage_mv: u16, cutoff_time_min: u16 },
    AdjustConstantPowerDischarge { discharge_power_w: u16, cutoff_voltage_mv: u16, cutoff_time_min: u16 },
    ContinueConstantPowerDischarge { discharge_power_w: u16, cutoff_voltage_mv: u16, cutoff_time_min: u16 },
    StartConstantCurrentVoltageCharge { charge_current_ma: u16, charge_voltage_mv: u16, cutoff_current_ma: u16 },
    AdjustConstantCurrentVoltageCharge { charge_current_ma: u16, charge_voltage_mv: u16, cutoff_current_ma: u16 },
    ContinueConstantCurrentVoltageCharge { charge_current_ma: u16, charge_voltage_mv: u16, cutoff_current_ma: u16 },
}

/// The frame that carries a command to a device with the limits `l`, or the
/// first parameter that the device does not accept.
pub open spec fn spec_command_frame(l: CapabilityLimits, cmd: DeviceCommand) -> Result<OutboundFrameKind, CapabilityError> {
    match cmd {
        DeviceCommand::Stop => Ok(OutboundFrameKind::Stop),
        DeviceCommand::StartConstantCurrentDischarge { discharge_current_ma, cutoff_voltage_mv, cutoff_time_min } =>
            match spec_check_constant_current_discharge(l, discharge_current_ma, cutoff_voltage_mv, cutoff_time_min) {
                Ok(()) => Ok(OutboundFrameKind::StartConstantCurrentDischarge { discharge_current_ma, cutoff_voltage_mv, cutoff_time_min }),
                Err(e) => Err(e),
            },
        DeviceCommand::AdjustConstantCurrentDischarge { discharge_current_ma, cutoff_voltage_mv, cutoff_time_min } =>
            match spec_check_constant_current_discharge(l, discharge_current_ma, cutoff_voltage_mv, cutoff_time_min) {
                Ok(()) => Ok(OutboundFrameKind::AdjustConstantCurrentDischarge { discharge_current_ma, cutoff_voltage_mv, cutoff_time_min }),
                Err(e) => Err(e),
            },
        DeviceCommand::ContinueConstantCurrentDischarge { discharge_current_ma, cutoff_voltage_mv, cutoff_time_min } =>
            match spec_check_constant_current_discharge(l, discharge_current_ma, cutoff_voltage_mv, cutoff_time_min) {
                Ok(()) => Ok(OutboundFrameKind::ContinueConstantCurrentDischarge { discharge_current_ma, cutoff_voltage_mv, cutoff_time_min }),
                Err(e) => Err(e),
            },
        DeviceCommand::StartConstantPowerDischarge { discharge_power_w, cutoff_voltage_mv, cutoff_time_min } =>
            match spec_check_constant_power_discharge(l, discharge_power_w, cutoff_voltage_mv, cutoff_time_min) {
                Ok(()) => Ok(OutboundFrameKind::StartConstantPowerDischarge { discharge_power_w, cutoff_voltage_mv, cutoff_time_min }),
                Err(e) => Err(e),
            },
        DeviceCommand::AdjustConstantPowerDischarge { discharge_power_w, cutoff_voltage_mv, cutoff_time_min } =>
            match spec_check_constant_power_discharge(l, discharge_power_w, cutoff_voltage_mv, cutoff_time_min) {
                Ok(()) => Ok(OutboundFrameKind::AdjustConstantPowerDischarge { discharge_power_w, cutoff_voltage_mv, cutoff_time_min }),
                Err(e) => Err(e),
            },
        DeviceCommand::ContinueConstantPowerDischarge { discharge_power_w, cutoff_voltage_mv, cutoff_time_min } =>
            match spec_check_constant_power_discharge(l, discharge_power_w, cutoff_voltage_mv, cutoff_time_min) {
                Ok(()) => Ok(OutboundFrameKind::ContinueConstantPowerDischarge { discharge_power_w, cutoff_voltage_mv, cutoff_time_min }),
                Err(e) => Err(e),
            },
        DeviceCommand::StartConstantCurrentVoltageCharge { charge_current_ma, charge_voltage_mv, cutoff_current_ma } =>
            match spec_check_constant_current_voltage_charge(l, charge_current_ma, charge_voltage_mv, cutoff_current_ma) {
                Ok(()) => Ok(OutboundFrameKind::StartConstantCurrentVoltageCharge { charge_current_ma, charge_voltage_mv, cutoff_current_ma }),
                Err(e) => Err(e),
            },
        DeviceCommand::AdjustConstantCurrentVoltageCharge { charge_current_ma, charge_voltage_mv, cutoff_current_ma } =>
            match spec_check_constant_current_voltage_charge(l, charge_current_ma, charge_voltage_mv, cutoff_current_ma) {
                Ok(()) => Ok(OutboundFrameKind::AdjustConstantCurrentVoltageCharge { charge_current_ma, charge_voltage_mv, cutoff_current_ma }),
                Err(e) => Err(e),
            },
        DeviceCommand::ContinueConstantCurrentVoltageCharge { charge_current_ma, charge_voltage_mv, cutoff_current_ma } =>
            match spec_check_constant_current_voltage_charge(l, charge_current_ma, charge_voltage_mv, cutoff_current_ma) {
                Ok(()) => Ok(OutboundFrameKind::ContinueConstantCurrentVoltageCharge { charge_current_ma, charge_voltage_mv, cutoff_current_ma }),
                Err(e) => Err(e),
            },
    }
}

/// Builds the frame for a command, checking its parameters against the
/// device's capabilities.
pub fn command_frame(cmd: DeviceCommand, capabilities: &DeviceCapabilities) -> (r: Result<OutboundFrame, CapabilityError>)
    ensures
        match r {
            Ok(f) => spec_command_frame(capabilities@, cmd) == Ok::<OutboundFrameKind, CapabilityError>(f.kind())
                && spec_kind_encodable(f.kind()),
            Err(e) => spec_command_frame(capabilities@, cmd) == Err::<OutboundFrameKind, CapabilityError>(e),
        },
{
    match cmd {
        DeviceCommand::Stop => Ok(OutboundFrame::stop()),
        DeviceCommand::StartConstantCurrentDischarge { discharge_current_ma, cutoff_voltage_mv, cutoff_time_min } =>
            OutboundFrame::start_constant_current_discharge(discharge_current_ma, cutoff_voltage_mv, cutoff_time_min, capabilities),
        DeviceCommand::AdjustConstantCurrentDischarge { discharge_current_ma, cutoff_voltage_mv, cutoff_time_min } =>
            OutboundFrame::adjust_constant_current_discharge(discharge_current_ma, cutoff_voltage_mv, cutoff_time_min, capabilities),
        DeviceCommand::ContinueConstantCurrentDischarge { discharge_current_ma, cutoff_voltage_mv, cutoff_time_min } =>
            OutboundFrame::continue_constant_current_discharge(discharge_current_ma, cutoff_voltage_mv, cutoff_time_min, capabilities),
        DeviceCommand::StartConstantPowerDischarge { discharge_power_w, cutoff_voltage_mv, cutoff_time_min } =>
            OutboundFrame::start_constant_power_discharge(discharge_power_w, cutoff_voltage_mv, cutoff_time_min, capabilities),
        DeviceCommand::AdjustConstantPowerDischarge { discharge_power_w, cutoff_voltage_mv, cutoff_time_min } =>
            OutboundFrame::adjust_constant_power_discharge(discharge_power_w, cutoff_voltage_mv, cutoff_time_min, capabilities),
        DeviceCommand::ContinueConstantPowerDischarge { discharge_power_w, cutoff_voltage_mv, cutoff_time_min } =>
            OutboundFrame::continue_constant_power_discharge(discharge_power_w, cutoff_voltage_mv, cutoff_time_min, capabilities),
        DeviceCommand::StartConstantCurrentVoltageCharge { charge_current_ma, charge_voltage_mv, cutoff_current_ma } =>
            OutboundFrame::start_constant_current_voltage_charge(charge_current_ma, charge_voltage_mv, cutoff_current_ma, capabilities),
        DeviceCommand::AdjustConstantCurrentVoltageCharge { charge_current_ma, charge_voltage_mv, cutoff_current_ma } =>
            OutboundFrame::adjust_constant_current_voltage_charge(charge_current_ma, charge_voltage_mv, cutoff_current_ma, capabilities),
        DeviceCommand::ContinueConstantCurrentVoltageCharge { charge_current_ma, charge_voltage_mv, cutoff_current_ma } =>
            OutboundFrame::continue_constant_current_voltage_charge(charge_current_ma, charge_voltage_mv, cutoff_current_ma, capabilities),
    }
}

/// The command byte that the device expects for each command: 0x02 stops;
/// 0x01, 0x07 and 0x08 start, adjust and continue a constant current
/// discharge; 0x11, 0x17 and 0x18 a constant power discharge; 0x21, 0x27
/// and 0x28 a charge.
pub open spec fn spec_device_command_byte(cmd: DeviceCommand) -> u8 {
    match cmd {
        DeviceCommand::Stop => 0x02,
        DeviceCommand::StartConstantCurrentDischarge { .. } => 0x01,
        DeviceCommand::AdjustConstantCurrentDischarge { .. } => 0x07,
        DeviceCommand::ContinueConstantCurrentDischarge { .. } => 0x08,
        DeviceCommand::StartConstantPowerDischarge { .. } => 0x11,
        DeviceCommand::AdjustConstantPowerDischarge { .. } => 0x17,
        DeviceCommand::ContinueConstantPowerDischarge { .. } => 0x18,
        DeviceCommand::StartConstantCurrentVoltageCharge { .. } => 0x21,
        DeviceCommand::AdjustConstantCurrentVoltageCharge { .. } => 0x27,
        DeviceCommand::ContinueConstantCurrentVoltageCharge { .. } => 0x28,
    }
}

/// The three values that a program command puts on the wire, in the
/// device's units: currents and voltages in tens of mA and mV, power in W,
/// time in minutes.
pub open spec fn spec_device_command_values(cmd: DeviceCommand) -> (int, int, int) {
    match cmd {
        DeviceCommand::Stop => (0, 0, 0),
        DeviceCommand::StartConstantCurrentDischarge { discharge_current_ma: a, cutoff_voltage_mv: b, cutoff_time_min: c }
        | DeviceCommand::AdjustConstantCurrentDischarge { discharge_current_ma: a, cutoff_voltage_mv: b, cutoff_time_min: c }
        | DeviceCommand::ContinueConstantCurrentDischarge { discharge_current_ma: a, cutoff_voltage_mv: b, cutoff_time_min: c } =>
            (a as int / 10, b as int / 10, c as int),
        DeviceCommand::StartConstantPowerDischarge { discharge_power_w: a, cutoff_voltage_mv: b, cutoff_time_min: c }
        | DeviceCommand::AdjustConstantPowerDischarge { discharge_power_w: a, cutoff_voltage_mv: b, cutoff_time_min: c }
        | DeviceCommand::ContinueConstantPowerDischarge { discharge_power_w: a, cutoff_voltage_mv: b, cutoff_time_min: c } =>
            (a as int, b as int / 10, c as int),
        DeviceCommand::StartConstantCurrentVoltageCharge { charge_current_ma: a, charge_voltage_mv: b, cutoff_current_ma: c }
        | DeviceCommand::AdjustConstantCurrentVoltageCharge { charge_current_ma: a, charge_voltage_mv: b, cutoff_current_ma: c }
        | DeviceCommand::ContinueConstantCurrentVoltageCharge { charge_current_ma: a, charge_voltage_mv: b, cutoff_current_ma: c } =>
            (a as int / 10, b as int / 10, c as int / 10),
    }
}

proof fn lemma_payload3_bytes(code: u8, a: int, b: int, c: int)
    requires
        0 <= a < 57840,
        0 <= b < 57840,
        0 <= c < 57840,
    ensures
        ({
            let f = spec_frame(spec_payload3(code, a, b, c));
            &&& f.len() == 10
            &&& f[1] == code
            &&& 240 * f[2] + f[3] == a
            &&& 240 * f[4] + f[5] == b
            &&& 240 * f[6] + f[7] == c
        }),
{
    lemma_base240_roundtrip(a as u16);
    lemma_base240_roundtrip(b as u16);
    lemma_base240_roundtrip(c as u16);
    let ea = spec_encode_base240(a);
    let eb = spec_encode_base240(b);
    let ec = spec_encode_base240(c);
    let p = spec_payload3(code, a, b, c);
    assert(p =~= seq![code, ea[0], ea[1], eb[0], eb[1], ec[0], ec[1]]);
    let f = spec_frame(p);
    assert(f[1] == p[0] && f[2] == p[1] && f[3] == p[2] && f[4] == p[3] && f[5] == p[4]
        && f[6] == p[5] && f[7] == p[6]);
}

/// A command that a device accepts is carried by the frame of its own kind
/// and step: the frame's command byte is the command's byte, and bytes 2 to
/// 7 hold the command's three values as base-240 pairs. A stop carries no
/// values.
pub proof fn lemma_command_frame_carries_command(l: CapabilityLimits, cmd: DeviceCommand)
    requires
        limits_encodable(l),
    ensures
        spec_command_frame(l, cmd) matches Ok(k) ==> {
            let b = spec_outbound_bytes(k);
            let v = spec_device_command_values(cmd);
            &&& b.len() == 10
            &&& b[1] == spec_device_command_byte(cmd)
            &&& 240 * b[2] + b[3] == v.0
            &&& 240 * b[4] + b[5] == v.1
            &&& 240 * b[6] + b[7] == v.2
        },
{
    if let Ok(k) = spec_command_frame(l, cmd) {
        let v = spec_device_command_values(cmd);
        if cmd is Stop {
            let p = spec_outbound_payload(k);
            assert(p =~= seq![0x02u8, 0u8, 0u8, 0u8, 0u8, 0u8, 0u8]);
            let f = spec_frame(p);
            assert(f[1] == p[0] && f[2] == p[1] && f[3] == p[2] && f[4] == p[3] && f[5] == p[4]
                && f[6] == p[5] && f[7] == p[6]);
        } else {
            lemma_payload3_bytes(spec_device_command_byte(cmd), v.0, v.1, v.2);
        }
    }
}

} // verus!
