use vstd::prelude::*;
use vstd::slice::slice_to_vec;

use crate::ebc::codec::{
    decode_base240, lemma_xor_with_checksum_is_zero, spec_decode_base240, spec_encode_base240,
    spec_xor, BASE240_LIMIT,
};
use crate::ebc::command::{
    adjust_constant_current_discharge_command, adjust_constant_current_voltage_charge_command,
    adjust_constant_power_discharge_command, calibration_command, connect_command,
    continue_constant_current_discharge_command,
    continue_constant_current_voltage_charge_command, continue_constant_power_discharge_command,
    disconnect_command, spec_calibration_payload, spec_frame, spec_payload3,
    spec_payload_bare, spec_timer_sync_payload, start_constant_current_discharge_command,
    start_constant_current_voltage_charge_command, start_constant_power_discharge_command,
    stop_command, timer_sync_command,
};
use crate::ebc::constants::{
    spec_device_type_of, DeviceType, END_BYTE, INBOUND_FRAME_SIZE, OUTBOUND_FRAME_SIZE,
    START_BYTE,
};
use crate::ebc::device_capabilities::{
    limits_encodable, spec_check_constant_current_discharge,
    spec_check_constant_current_voltage_charge, spec_check_constant_power_discharge,
    CapabilityError, DeviceCapabilities,
};
use crate::ebc::report::{
    ChargeReport, DeviceMode, DischargeConstantCurrentReport, DischargeConstantPowerReport,
    FirmwareReport,
};
use crate::text::{decimal_string, hex_byte_string, spec_decimal, spec_hex_byte};

verus! {

/// What an outbound frame asks the device to do.
#[derive(Debug, Clone, Copy, PartialEq, Eq, Structural)]
pub enum OutboundFrameKind {
    Connect,
    Disconnect,
    Stop,
    StartConstantCurrentDischarge {
        discharge_current_ma: u16,
        cutoff_voltage_mv: u16,
        cutoff_time_min: u16,
    },
    AdjustConstantCurrentDischarge {
        discharge_current_ma: u16,
        cutoff_voltage_mv: u16,
        cutoff_time_min: u16,
    },
    ContinueConstantCurrentDischarge {
        discharge_current_ma: u16,
        cutoff_voltage_mv: u16,
        cutoff_time_min: u16,
    },
    StartConstantPowerDischarge { discharge_power_w: u16, cutoff_voltage_mv: u16, cutoff_time_min: u16 },
    AdjustConstantPowerDischarge { discharge_power_w: u16, cutoff_voltage_mv: u16, cutoff_time_min: u16 },
    ContinueConstantPowerDischarge {
        discharge_power_w: u16,
        cutoff_voltage_mv: u16,
        cutoff_time_min: u16,
    },
    StartConstantCurrentVoltageCharge {
        charge_current_ma: u16,
        charge_voltage_mv: u16,
        cutoff_current_ma: u16,
    },
    AdjustConstantCurrentVoltageCharge {
        charge_current_ma: u16,
        charge_voltage_mv: u16,
        cutoff_current_ma: u16,
    },
    ContinueConstantCurrentVoltageCharge {
        charge_current_ma: u16,
        charge_voltage_mv: u16,
        cutoff_current_ma: u16,
    },
    TimerSync { time_in_min: u16 },
    CalibrateVoltageLow { mv: u16 },
    CalibrateVoltageHigh { mv: u16 },
    CalibrateCurrentLow { ma: u16 },
    CalibrateCurrentHigh { ma: u16 },
    CalibrateConfirm,
}

/// Whether every value that a frame carries fits its two base-240 digits.
pub open spec fn spec_kind_encodable(k: OutboundFrameKind) -> bool {
    match k {
        OutboundFrameKind::StartConstantCurrentDischarge { cutoff_time_min, .. } => cutoff_time_min
            < BASE240_LIMIT,
        OutboundFrameKind::AdjustConstantCurrentDischarge { cutoff_time_min, .. } => cutoff_time_min
            < BASE240_LIMIT,
        OutboundFrameKind::ContinueConstantCurrentDischarge { cutoff_time_min, .. } =>
            cutoff_time_min < BASE240_LIMIT,
        OutboundFrameKind::StartConstantPowerDischarge { discharge_power_w, cutoff_time_min, .. } =>
            discharge_power_w < BASE240_LIMIT && cutoff_time_min < BASE240_LIMIT,
        OutboundFrameKind::AdjustConstantPowerDischarge {
            discharge_power_w,
            cutoff_time_min,
            ..
        } => discharge_power_w < BASE240_LIMIT && cutoff_time_min < BASE240_LIMIT,
        OutboundFrameKind::ContinueConstantPowerDischarge {
            discharge_power_w,
            cutoff_time_min,
            ..
        } => discharge_power_w < BASE240_LIMIT && cutoff_time_min < BASE240_LIMIT,
        OutboundFrameKind::TimerSync { time_in_min } => time_in_min < BASE240_LIMIT,
        OutboundFrameKind::CalibrateVoltageLow { mv } => mv < BASE240_LIMIT,
        OutboundFrameKind::CalibrateVoltageHigh { mv } => mv < BASE240_LIMIT,
        OutboundFrameKind::CalibrateCurrentLow { ma } => ma < BASE240_LIMIT,
        OutboundFrameKind::CalibrateCurrentHigh { ma } => ma < BASE240_LIMIT,
        _ => true,
    }
}

/// The seven payload bytes of a frame.
pub open spec fn spec_outbound_payload(k: OutboundFrameKind) -> Seq<u8> {
    match k {
        OutboundFrameKind::Connect => spec_payload_bare(0x05),
        OutboundFrameKind::Disconnect => spec_payload_bare(0x06),
        OutboundFrameKind::Stop => spec_payload_bare(0x02),
        OutboundFrameKind::StartConstantCurrentDischarge {
            discharge_current_ma,
            cutoff_voltage_mv,
            cutoff_time_min,
        } => spec_payload3(
                0x01,
                (discharge_current_ma / 10) as int,
                (cutoff_voltage_mv / 10) as int,
                cutoff_time_min as int,
            ),
        OutboundFrameKind::AdjustConstantCurrentDischarge {
            discharge_current_ma,
            cutoff_voltage_mv,
            cutoff_time_min,
        } => spec_payload3(
                0x07,
                (discharge_current_ma / 10) as int,
                (cutoff_voltage_mv / 10) as int,
                cutoff_time_min as int,
            ),
        OutboundFrameKind::ContinueConstantCurrentDischarge {
            discharge_current_ma,
            cutoff_voltage_mv,
            cutoff_time_min,
        } => spec_payload3(
                0x08,
                (discharge_current_ma / 10) as int,
                (cutoff_voltage_mv / 10) as int,
                cutoff_time_min as int,
            ),
        OutboundFrameKind::StartConstantPowerDischarge {
            discharge_power_w,
            cutoff_voltage_mv,
            cutoff_time_min,
        } => spec_payload3(
                0x11,
                discharge_power_w as int,
                (cutoff_voltage_mv / 10) as int,
                cutoff_time_min as int,
            ),
        OutboundFrameKind::AdjustConstantPowerDischarge {
            discharge_power_w,
            cutoff_voltage_mv,
            cutoff_time_min,
        } => spec_payload3(
                0x17,
                discharge_power_w as int,
                (cutoff_voltage_mv / 10) as int,
                cutoff_time_min as int,
            ),
        OutboundFrameKind::ContinueConstantPowerDischarge {
            discharge_power_w,
            cutoff_voltage_mv,
            cutoff_time_min,
        } => spec_payload3(
                0x18,
                discharge_power_w as int,
                (cutoff_voltage_mv / 10) as int,
                cutoff_time_min as int,
            ),
        OutboundFrameKind::StartConstantCurrentVoltageCharge {
            charge_current_ma,
            charge_voltage_mv,
            cutoff_current_ma,
        } => spec_payload3(
                0x21,
                (charge_current_ma / 10) as int,
                (charge_voltage_mv / 10) as int,
                (cutoff_current_ma / 10) as int,
            ),
        OutboundFrameKind::AdjustConstantCurrentVoltageCharge {
            charge_current_ma,
            charge_voltage_mv,
            cutoff_current_ma,
        } => spec_payload3(
                0x27,
                (charge_current_ma / 10) as int,
                (charge_voltage_mv / 10) as int,
                (cutoff_current_ma / 10) as int,
            ),
        OutboundFrameKind::ContinueConstantCurrentVoltageCharge {
            charge_current_ma,
            charge_voltage_mv,
            cutoff_current_ma,
        } => spec_payload3(
                0x28,
                (charge_current_ma / 10) as int,
                (charge_voltage_mv / 10) as int,
                (cutoff_current_ma / 10) as int,
            ),
        OutboundFrameKind::TimerSync { time_in_min } => spec_timer_sync_payload(time_in_min as int),
        OutboundFrameKind::CalibrateVoltageLow { mv } => spec_calibration_payload(0x00, mv as int),
        OutboundFrameKind::CalibrateVoltageHigh { mv } => spec_calibration_payload(0x01, mv as int),
        OutboundFrameKind::CalibrateCurrentLow { ma } => spec_calibration_payload(0x02, ma as int),
        OutboundFrameKind::CalibrateCurrentHigh { ma } => spec_calibration_payload(0x03, ma as int),
        OutboundFrameKind::CalibrateConfirm => spec_calibration_payload(0x04, 0),
    }
}

/// The ten bytes that stand for a frame on the wire.
pub open spec fn spec_outbound_bytes(k: OutboundFrameKind) -> Seq<u8> {
    spec_frame(spec_outbound_payload(k))
}

/// A frame that the device accepts: the checked constructors only build
/// frames whose parameters lie within the device's capabilities.
pub struct OutboundFrame(OutboundFrameKind);

impl OutboundFrame {
    /// What the frame asks the device to do.
    pub closed spec fn kind(&self) -> OutboundFrameKind {
        self.0
    }

    pub fn connect() -> (f: Self)
        ensures
            f.kind() == OutboundFrameKind::Connect,
    {
        OutboundFrame(OutboundFrameKind::Connect)
    }

    pub fn disconnect() -> (f: Self)
        ensures
            f.kind() == OutboundFrameKind::Disconnect,
    {
        OutboundFrame(OutboundFrameKind::Disconnect)
    }

    pub fn stop() -> (f: Self)
        ensures
            f.kind() == OutboundFrameKind::Stop,
    {
        OutboundFrame(OutboundFrameKind::Stop)
    }

    pub fn timer_sync(time_in_min: u16) -> (f: Self)
        ensures
            f.kind() == (OutboundFrameKind::TimerSync { time_in_min }),
    {
        OutboundFrame(OutboundFrameKind::TimerSync { time_in_min })
    }

    pub fn calibrate_voltage_low(mv: u16) -> (f: Self)
        ensures
            f.kind() == (OutboundFrameKind::CalibrateVoltageLow { mv }),
    {
        OutboundFrame(OutboundFrameKind::CalibrateVoltageLow { mv })
    }

    pub fn calibrate_voltage_high(mv: u16) -> (f: Self)
        ensures
            f.kind() == (OutboundFrameKind::CalibrateVoltageHigh { mv }),
    {
        OutboundFrame(OutboundFrameKind::CalibrateVoltageHigh { mv })
    }

    pub fn calibrate_current_low(ma: u16) -> (f: Self)
        ensures
            f.kind() == (OutboundFrameKind::CalibrateCurrentLow { ma }),
    {
        OutboundFrame(OutboundFrameKind::CalibrateCurrentLow { ma })
    }

    pub fn calibrate_current_high(ma: u16) -> (f: Self)
        ensures
            f.kind() == (OutboundFrameKind::CalibrateCurrentHigh { ma }),
    {
        OutboundFrame(OutboundFrameKind::CalibrateCurrentHigh { ma })
    }

    pub fn calibrate_confirm() -> (f: Self)
        ensures
            f.kind() == OutboundFrameKind::CalibrateConfirm,
    {
        OutboundFrame(OutboundFrameKind::CalibrateConfirm)
    }

    /// A start of a constant current discharge, if the device accepts the
    /// parameters.
    pub fn start_constant_current_discharge(
        discharge_current_ma: u16,
        cutoff_voltage_mv: u16,
        cutoff_time_min: u16,
        device_capabilities: &DeviceCapabilities,
    ) -> (r: Result<Self, CapabilityError>)
        ensures
            match r {
                Ok(f) => {
                    &&& spec_check_constant_current_discharge(
                        device_capabilities@,
                        discharge_current_ma,
                        cutoff_voltage_mv,
                        cutoff_time_min,
                    ) is Ok
                    &&& f.kind() == (OutboundFrameKind::StartConstantCurrentDischarge {
                        discharge_current_ma,
                        cutoff_voltage_mv,
                        cutoff_time_min,
                    })
                    &&& spec_kind_encodable(f.kind())
                },
                Err(e) => spec_check_constant_current_discharge(
                    device_capabilities@,
                    discharge_current_ma,
                    cutoff_voltage_mv,
                    cutoff_time_min,
                ) == Err::<(), CapabilityError>(e),
            },
    {
        match device_capabilities.check_constant_current_discharge_command_parameters(
            discharge_current_ma,
            cutoff_voltage_mv,
            cutoff_time_min,
        ) {
            Ok(()) => Ok(
                Self(
                    OutboundFrameKind::StartConstantCurrentDischarge {
                        discharge_current_ma,
                        cutoff_voltage_mv,
                        cutoff_time_min,
                    },
                ),
            ),
            Err(e) => Err(e),
        }
    }

    /// A change of a running constant current discharge, if the device
    /// accepts the parameters.
    pub fn adjust_constant_current_discharge(
        discharge_current_ma: u16,
        cutoff_voltage_mv: u16,
        cutoff_time_min: u16,
        device_capabilities: &DeviceCapabilities,
    ) -> (r: Result<Self, CapabilityError>)
        ensures
            match r {
                Ok(f) => {
                    &&& spec_check_constant_current_discharge(
                        device_capabilities@,
                        discharge_current_ma,
                        cutoff_voltage_mv,
                        cutoff_time_min,
                    ) is Ok
                    &&& f.kind() == (OutboundFrameKind::AdjustConstantCurrentDischarge {
                        discharge_current_ma,
                        cutoff_voltage_mv,
                        cutoff_time_min,
                    })
                    &&& spec_kind_encodable(f.kind())
                },
                Err(e) => spec_check_constant_current_discharge(
                    device_capabilities@,
                    discharge_current_ma,
                    cutoff_voltage_mv,
                    cutoff_time_min,
                ) == Err::<(), CapabilityError>(e),
            },
    {
        match device_capabilities.check_constant_current_discharge_command_parameters(
            discharge_current_ma,
            cutoff_voltage_mv,
            cutoff_time_min,
        ) {
            Ok(()) => Ok(
                Self(
                    OutboundFrameKind::AdjustConstantCurrentDischarge {
                        discharge_current_ma,
                        cutoff_voltage_mv,
                        cutoff_time_min,
                    },
                ),
            ),
            Err(e) => Err(e),
        }
    }

    /// A continuation of a constant current discharge, if the device
    /// accepts the parameters.
    pub fn continue_constant_current_discharge(
        discharge_current_ma: u16,
        cutoff_voltage_mv: u16,
        cutoff_time_min: u16,
        device_capabilities: &DeviceCapabilities,
    ) -> (r: Result<Self, CapabilityError>)
        ensures
            match r {
                Ok(f) => {
                    &&& spec_check_constant_current_discharge(
                        device_capabilities@,
                        discharge_current_ma,
                        cutoff_voltage_mv,
                        cutoff_time_min,
                    ) is Ok
                    &&& f.kind() == (OutboundFrameKind::ContinueConstantCurrentDischarge {
                        discharge_current_ma,
                        cutoff_voltage_mv,
                        cutoff_time_min,
                    })
                    &&& spec_kind_encodable(f.kind())
                },
                Err(e) => spec_check_constant_current_discharge(
                    device_capabilities@,
                    discharge_current_ma,
                    cutoff_voltage_mv,
                    cutoff_time_min,
                ) == Err::<(), CapabilityError>(e),
            },
    {
        match device_capabilities.check_constant_current_discharge_command_parameters(
            discharge_current_ma,
            cutoff_voltage_mv,
            cutoff_time_min,
        ) {
            Ok(()) => Ok(
                Self(
                    OutboundFrameKind::ContinueConstantCurrentDischarge {
                        discharge_current_ma,
                        cutoff_voltage_mv,
                        cutoff_time_min,
                    },
                ),
            ),
            Err(e) => Err(e),
        }
    }

    /// A start of a constant power discharge, if the device accepts the
    /// parameters.
    pub fn start_constant_power_discharge(
        discharge_power_w: u16,
        cutoff_voltage_mv: u16,
        cutoff_time_min: u16,
        device_capabilities: &DeviceCapabilities,
    ) -> (r: Result<Self, CapabilityError>)
        ensures
            match r {
                Ok(f) => {
                    &&& spec_check_constant_power_discharge(
                        device_capabilities@,
                        discharge_power_w,
                        cutoff_voltage_mv,
                        cutoff_time_min,
                    ) is Ok
                    &&& f.kind() == (OutboundFrameKind::StartConstantPowerDischarge {
                        discharge_power_w,
                        cutoff_voltage_mv,
                        cutoff_time_min,
                    })
                    &&& spec_kind_encodable(f.kind())
                },
                Err(e) => spec_check_constant_power_discharge(
                    device_capabilities@,
                    discharge_power_w,
                    cutoff_voltage_mv,
                    cutoff_time_min,
                ) == Err::<(), CapabilityError>(e),
            },
    {
        match device_capabilities.check_constant_power_discharge_command_parameters(
            discharge_power_w,
            cutoff_voltage_mv,
            cutoff_time_min,
        ) {
            Ok(()) => Ok(
                Self(
                    OutboundFrameKind::StartConstantPowerDischarge {
                        discharge_power_w,
                        cutoff_voltage_mv,
                        cutoff_time_min,
                    },
                ),
            ),
            Err(e) => Err(e),
        }
    }

    /// A change of a running constant power discharge, if the device accepts
    /// the parameters.
    pub fn adjust_constant_power_discharge(
        discharge_power_w: u16,
        cutoff_voltage_mv: u16,
        cutoff_time_min: u16,
        device_capabilities: &DeviceCapabilities,
    ) -> (r: Result<Self, CapabilityError>)
        ensures
            match r {
                Ok(f) => {
                    &&& spec_check_constant_power_discharge(
                        device_capabilities@,
                        discharge_power_w,
                        cutoff_voltage_mv,
                        cutoff_time_min,
                    ) is Ok
                    &&& f.kind() == (OutboundFrameKind::AdjustConstantPowerDischarge {
                        discharge_power_w,
                        cutoff_voltage_mv,
                        cutoff_time_min,
                    })
                    &&& spec_kind_encodable(f.kind())
                },
                Err(e) => spec_check_constant_power_discharge(
                    device_capabilities@,
                    discharge_power_w,
                    cutoff_voltage_mv,
                    cutoff_time_min,
                ) == Err::<(), CapabilityError>(e),
            },
    {
        match device_capabilities.check_constant_power_discharge_command_parameters(
            discharge_power_w,
            cutoff_voltage_mv,
            cutoff_time_min,
        ) {
            Ok(()) => Ok(
                Self(
                    OutboundFrameKind::AdjustConstantPowerDischarge {
                        discharge_power_w,
                        cutoff_voltage_mv,
                        cutoff_time_min,
                    },
                ),
            ),
            Err(e) => Err(e),
        }
    }

    /// A continuation of a constant power discharge, if the device accepts
    /// the parameters.
    pub fn continue_constant_power_discharge(
        discharge_power_w: u16,
        cutoff_voltage_mv: u16,
        cutoff_time_min: u16,
        device_capabilities: &DeviceCapabilities,
    ) -> (r: Result<Self, CapabilityError>)
        ensures
            match r {
                Ok(f) => {
                    &&& spec_check_constant_power_discharge(
                        device_capabilities@,
                        discharge_power_w,
                        cutoff_voltage_mv,
                        cutoff_time_min,
                    ) is Ok
                    &&& f.kind() == (OutboundFrameKind::ContinueConstantPowerDischarge {
                        discharge_power_w,
                        cutoff_voltage_mv,
                        cutoff_time_min,
                    })
                    &&& spec_kind_encodable(f.kind())
                },
                Err(e) => spec_check_constant_power_discharge(
                    device_capabilities@,
                    discharge_power_w,
                    cutoff_voltage_mv,
                    cutoff_time_min,
                ) == Err::<(), CapabilityError>(e),
            },
    {
        match device_capabilities.check_constant_power_discharge_command_parameters(
            discharge_power_w,
            cutoff_voltage_mv,
            cutoff_time_min,
        ) {
            Ok(()) => Ok(
                Self(
                    OutboundFrameKind::ContinueConstantPowerDischarge {
                        discharge_power_w,
                        cutoff_voltage_mv,
                        cutoff_time_min,
                    },
                ),
            ),
            Err(e) => Err(e),
        }
    }

    /// A start of a constant current, constant voltage charge, if the device
    /// accepts the parameters.
    pub fn start_constant_current_voltage_charge(
        charge_current_ma: u16,
        charge_voltage_mv: u16,
        cutoff_current_ma: u16,
        device_capabilities: &DeviceCapabilities,
    ) -> (r: Result<Self, CapabilityError>)
        ensures
            match r {
                Ok(f) => {
                    &&& spec_check_constant_current_voltage_charge(
                        device_capabilities@,
                        charge_current_ma,
                        charge_voltage_mv,
                        cutoff_current_ma,
                    ) is Ok
                    &&& f.kind() == (OutboundFrameKind::StartConstantCurrentVoltageCharge {
                        charge_current_ma,
                        charge_voltage_mv,
                        cutoff_current_ma,
                    })
                    &&& spec_kind_encodable(f.kind())
                },
                Err(e) => spec_check_constant_current_voltage_charge(
                    device_capabilities@,
                    charge_current_ma,
                    charge_voltage_mv,
                    cutoff_current_ma,
                ) == Err::<(), CapabilityError>(e),
            },
    {
        match device_capabilities.check_constant_current_voltage_charge_command_parameters(
            charge_current_ma,
            charge_voltage_mv,
            cutoff_current_ma,
        ) {
            Ok(()) => Ok(
                Self(
                    OutboundFrameKind::StartConstantCurrentVoltageCharge {
                        charge_current_ma,
                        charge_voltage_mv,
                        cutoff_current_ma,
                    },
                ),
            ),
            Err(e) => Err(e),
        }
    }

    /// A change of a running charge, if the device accepts the parameters.
    pub fn adjust_constant_current_voltage_charge(
        charge_current_ma: u16,
        charge_voltage_mv: u16,
        cutoff_current_ma: u16,
        device_capabilities: &DeviceCapabilities,
    ) -> (r: Result<Self, CapabilityError>)
        ensures
            match r {
                Ok(f) => {
                    &&& spec_check_constant_current_voltage_charge(
                        device_capabilities@,
                        charge_current_ma,
                        charge_voltage_mv,
                        cutoff_current_ma,
                    ) is Ok
                    &&& f.kind() == (OutboundFrameKind::AdjustConstantCurrentVoltageCharge {
                        charge_current_ma,
                        charge_voltage_mv,
                        cutoff_current_ma,
                    })
                    &&& spec_kind_encodable(f.kind())
                },
                Err(e) => spec_check_constant_current_voltage_charge(
                    device_capabilities@,
                    charge_current_ma,
                    charge_voltage_mv,
                    cutoff_current_ma,
                ) == Err::<(), CapabilityError>(e),
            },
    {
        match device_capabilities.check_constant_current_voltage_charge_command_parameters(
            charge_current_ma,
            charge_voltage_mv,
            cutoff_current_ma,
        ) {
            Ok(()) => Ok(
                Self(
                    OutboundFrameKind::AdjustConstantCurrentVoltageCharge {
                        charge_current_ma,
                        charge_voltage_mv,
                        cutoff_current_ma,
                    },
                ),
            ),
            Err(e) => Err(e),
        }
    }

    /// A continuation of a charge, if the device accepts the parameters.
    pub fn continue_constant_current_voltage_charge(
        charge_current_ma: u16,
        charge_voltage_mv: u16,
        cutoff_current_ma: u16,
        device_capabilities: &DeviceCapabilities,
    ) -> (r: Result<Self, CapabilityError>)
        ensures
            match r {
                Ok(f) => {
                    &&& spec_check_constant_current_voltage_charge(
                        device_capabilities@,
                        charge_current_ma,
                        charge_voltage_mv,
                        cutoff_current_ma,
                    ) is Ok
                    &&& f.kind() == (OutboundFrameKind::ContinueConstantCurrentVoltageCharge {
                        charge_current_ma,
                        charge_voltage_mv,
                        cutoff_current_ma,
                    })
                    &&& spec_kind_encodable(f.kind())
                },
                Err(e) => spec_check_constant_current_voltage_charge(
                    device_capabilities@,
                    charge_current_ma,
                    charge_voltage_mv,
                    cutoff_current_ma,
                ) == Err::<(), CapabilityError>(e),
            },
    {
        match device_capabilities.check_constant_current_voltage_charge_command_parameters(
            charge_current_ma,
            charge_voltage_mv,
            cutoff_current_ma,
        ) {
            Ok(()) => Ok(
                Self(
                    OutboundFrameKind::ContinueConstantCurrentVoltageCharge {
                        charge_current_ma,
                        charge_voltage_mv,
                        cutoff_current_ma,
                    },
                ),
            ),
            Err(e) => Err(e),
        }
    }

    /// The bytes that carry the frame to the device.
    pub fn into_bytes(self) -> (bytes: [u8; OUTBOUND_FRAME_SIZE])
        requires
            spec_kind_encodable(self.kind()),
        ensures
            bytes@ == spec_outbound_bytes(self.kind()),
    {
        match self {
            OutboundFrame(OutboundFrameKind::Connect) => connect_command(),
            OutboundFrame(OutboundFrameKind::Disconnect) => disconnect_command(),
            OutboundFrame(OutboundFrameKind::Stop) => stop_command(),
            OutboundFrame(
                OutboundFrameKind::StartConstantCurrentDischarge {
                    discharge_current_ma,
                    cutoff_voltage_mv,
                    cutoff_time_min,
                },
            ) => start_constant_current_discharge_command(
                discharge_current_ma,
                cutoff_voltage_mv,
                cutoff_time_min,
            ),
            OutboundFrame(
                OutboundFrameKind::AdjustConstantCurrentDischarge {
                    discharge_current_ma,
                    cutoff_voltage_mv,
                    cutoff_time_min,
                },
            ) => adjust_constant_current_discharge_command(
                discharge_current_ma,
                cutoff_voltage_mv,
                cutoff_time_min,
            ),
            OutboundFrame(
                OutboundFrameKind::ContinueConstantCurrentDischarge {
                    discharge_current_ma,
                    cutoff_voltage_mv,
                    cutoff_time_min,
                },
            ) => continue_constant_current_discharge_command(
                discharge_current_ma,
                cutoff_voltage_mv,
                cutoff_time_min,
            ),
            OutboundFrame(
                OutboundFrameKind::StartConstantPowerDischarge {
                    discharge_power_w,
                    cutoff_voltage_mv,
                    cutoff_time_min,
                },
            ) => start_constant_power_discharge_command(
                discharge_power_w,
                cutoff_voltage_mv,
                cutoff_time_min,
            ),
            OutboundFrame(
                OutboundFrameKind::AdjustConstantPowerDischarge {
                    discharge_power_w,
                    cutoff_voltage_mv,
                    cutoff_time_min,
                },
            ) => adjust_constant_power_discharge_command(
                discharge_power_w,
                cutoff_voltage_mv,
                cutoff_time_min,
            ),
            OutboundFrame(
                OutboundFrameKind::ContinueConstantPowerDischarge {
                    discharge_power_w,
                    cutoff_voltage_mv,
                    cutoff_time_min,
                },
            ) => continue_constant_power_discharge_command(
                discharge_power_w,
                cutoff_voltage_mv,
                cutoff_time_min,
            ),
            OutboundFrame(
                OutboundFrameKind::StartConstantCurrentVoltageCharge {
                    charge_current_ma,
                    charge_voltage_mv,
                    cutoff_current_ma,
                },
            ) => start_constant_current_voltage_charge_command(
                charge_current_ma,
                charge_voltage_mv,
                cutoff_current_ma,
            ),
            OutboundFrame(
                OutboundFrameKind::AdjustConstantCurrentVoltageCharge {
                    charge_current_ma,
                    charge_voltage_mv,
                    cutoff_current_ma,
                },
            ) => adjust_constant_current_voltage_charge_command(
                charge_current_ma,
                charge_voltage_mv,
                cutoff_current_ma,
            ),
            OutboundFrame(
                OutboundFrameKind::ContinueConstantCurrentVoltageCharge {
                    charge_current_ma,
                    charge_voltage_mv,
                    cutoff_current_ma,
                },
            ) => continue_constant_current_voltage_charge_command(
                charge_current_ma,
                charge_voltage_mv,
                cutoff_current_ma,
            ),
            OutboundFrame(OutboundFrameKind::TimerSync { time_in_min }) => timer_sync_command(
                time_in_min,
            ),
            OutboundFrame(OutboundFrameKind::CalibrateVoltageLow { mv }) => calibration_command(
                0x00,
                mv,
            ),
            OutboundFrame(OutboundFrameKind::CalibrateVoltageHigh { mv }) => calibration_command(
                0x01,
                mv,
            ),
            OutboundFrame(OutboundFrameKind::CalibrateCurrentLow { ma }) => calibration_command(
                0x02,
                ma,
            ),
            OutboundFrame(OutboundFrameKind::CalibrateCurrentHigh { ma }) => calibration_command(
                0x03,
                ma,
            ),
            OutboundFrame(OutboundFrameKind::CalibrateConfirm) => calibration_command(0x04, 0),
        }
    }
}


/// A report that the device sent.
#[derive(Clone, Debug)]
pub enum InboundFrame {
    Firmware(FirmwareReport),
    DischargeConstantCurrent(DischargeConstantCurrentReport),
    DischargeConstantPower(DischargeConstantPowerReport),
    Charge(ChargeReport),
}

/// Command bytes of firmware reports, sent while idle and shortly after a start.
pub open spec fn spec_is_firmware_code(b: u8) -> bool {
    b == 0x70 || b == 0x66 || b == 0x6F || b == 0x65 || b == 0x6E || b == 0x64
}

/// Command bytes of charge reports.
pub open spec fn spec_is_charge_code(b: u8) -> bool {
    b == 0x0C || b == 0x02 || b == 0x16
}

/// Command bytes of constant current discharge reports.
pub open spec fn spec_is_discharge_current_code(b: u8) -> bool {
    b == 0x0A || b == 0x00 || b == 0x14
}

/// Command bytes of constant power discharge reports.
pub open spec fn spec_is_discharge_power_code(b: u8) -> bool {
    b == 0x0B || b == 0x01 || b == 0x15
}

/// Command bytes of any known report.
pub open spec fn spec_is_known_code(b: u8) -> bool {
    spec_is_firmware_code(b) || spec_is_charge_code(b) || spec_is_discharge_current_code(b)
        || spec_is_discharge_power_code(b)
}

/// Why the raw bytes are no report, or `None` when they are one: the length,
/// the markers and the command byte are checked in this order. The checksum
/// is not checked: some firmware sends wrong checksums with correct data.
pub open spec fn spec_frame_error(raw: Seq<u8>) -> Option<Seq<char>> {
    if raw.len() != INBOUND_FRAME_SIZE {
        Some("Frame length mismatch: expected 19, got "@ + spec_decimal(raw.len()))
    } else if raw[0] != START_BYTE {
        Some("Invalid start byte: expected 0xfa, got "@ + spec_hex_byte(raw[0]))
    } else if raw[18] != END_BYTE {
        Some("Invalid end byte: expected 0xf8, got "@ + spec_hex_byte(raw[18]))
    } else if !spec_is_known_code(raw[1]) {
        Some("Unknown command byte: "@ + spec_hex_byte(raw[1]))
    } else {
        None
    }
}

/// The base-240 value at payload offset `k` and `k + 1`.
pub open spec fn spec_field(p: Seq<u8>, k: int) -> int {
    spec_decode_base240(p[k], p[k + 1])
}

/// Whether the fields of a report payload can be read: the model code is
/// known and each value that is scaled by ten stays within `u16`.
pub open spec fn spec_payload_decodable(p: Seq<u8>) -> bool {
    let cmd = p[0];
    &&& spec_device_type_of(p[15]) is Some
    &&& spec_field(p, 1) * 10 <= u16::MAX
    &&& (spec_is_charge_code(cmd) || spec_is_discharge_current_code(cmd)) ==> spec_field(p, 9) * 10
        <= u16::MAX
    &&& spec_is_discharge_current_code(cmd) ==> spec_field(p, 11) * 10 <= u16::MAX
}

/// Whether reading the bytes ends in a report or an error message rather
/// than in a failure: frames that pass the header checks must have readable
/// fields.
pub open spec fn spec_frame_decodable(raw: Seq<u8>) -> bool {
    spec_frame_error(raw) is Some || spec_payload_decodable(raw.subrange(1, 17))
}

/// The firmware version `v` written as major, minor and patch number.
pub open spec fn spec_version_text(v: int) -> Seq<char> {
    spec_decimal((v / 100) as nat) + "."@ + spec_decimal(((v % 100) / 10) as nat) + "."@
        + spec_decimal((v % 10) as nat)
}

/// The mode that a firmware report's command byte tells.
pub open spec fn spec_firmware_mode(cmd: u8) -> DeviceMode {
    if cmd == 0x70 || cmd == 0x66 {
        DeviceMode::ChargeConstantVoltage
    } else if cmd == 0x6F || cmd == 0x65 {
        DeviceMode::DischargeConstantPower
    } else {
        DeviceMode::DischargeConstantCurrent
    }
}

/// Whether `f` holds exactly the values that the 16-byte payload `p`
/// encodes, in units of mA, mV, mAh, W and minutes.
pub open spec fn spec_payload_decodes_to(p: Seq<u8>, f: InboundFrame) -> bool {
    let cmd = p[0];
    let device_type = spec_device_type_of(p[15]).unwrap();
    if spec_is_firmware_code(cmd) {
        &&& f matches InboundFrame::Firmware(r)
        &&& r.device_mode == spec_firmware_mode(cmd)
        &&& r.in_progress == (cmd == 0x70 || cmd == 0x6F || cmd == 0x6E)
        &&& r.current_ma == spec_field(p, 1) * 10
        &&& r.voltage_mv == spec_field(p, 3)
        &&& r.milli_ampere_hours == spec_field(p, 5)
        &&& r.unknown == spec_field(p, 7)
        &&& r.firmware_version@ == spec_version_text(spec_field(p, 9))
        &&& r.unknown1 == spec_field(p, 11)
        &&& r.unknown2 == spec_field(p, 13)
        &&& r.device_type == device_type
    } else if spec_is_charge_code(cmd) {
        &&& f matches InboundFrame::Charge(r)
        &&& r.in_progress == (cmd == 0x0C)
        &&& r.current_ma == spec_field(p, 1) * 10
        &&& r.voltage_mv == spec_field(p, 3)
        &&& r.milli_ampere_hours == spec_field(p, 5)
        &&& r.unknown == spec_field(p, 7)
        &&& r.charge_current_ma == spec_field(p, 9) * 10
        &&& r.charge_voltage_mv == spec_field(p, 11)
        &&& r.cutoff_current_ma == spec_field(p, 13)
        &&& r.device_type == device_type
    } else if spec_is_discharge_current_code(cmd) {
        &&& f matches InboundFrame::DischargeConstantCurrent(r)
        &&& r.in_progress == (cmd == 0x0A)
        &&& r.current_ma == spec_field(p, 1) * 10
        &&& r.voltage_mv == spec_field(p, 3)
        &&& r.milli_ampere_hours == spec_field(p, 5)
        &&& r.unknown == spec_field(p, 7)
        &&& r.discharge_current_ma == spec_field(p, 9) * 10
        &&& r.cutoff_voltage_mv == spec_field(p, 11) * 10
        &&& r.cutoff_time_min == spec_field(p, 13)
        &&& r.device_type == device_type
    } else {
        &&& f matches InboundFrame::DischargeConstantPower(r)
        &&& r.in_progress == (cmd == 0x0B)
        &&& r.current_ma == spec_field(p, 1) * 10
        &&& r.voltage_mv == spec_field(p, 3)
        &&& r.milli_ampere_hours == spec_field(p, 5)
        &&& r.unknown == spec_field(p, 7)
        &&& r.discharge_power_w == spec_field(p, 9)
        &&& r.cutoff_voltage_mv == spec_field(p, 11)
        &&& r.cutoff_time_min == spec_field(p, 13)
        &&& r.device_type == device_type
    }
}

/// Whether `f` is the report that the raw frame bytes carry.
pub open spec fn spec_decodes_to(raw: Seq<u8>, f: InboundFrame) -> bool {
    spec_payload_decodes_to(raw.subrange(1, 17), f)
}

/// The device type of a known model code.
fn known_device_type(code: u8) -> (t: DeviceType)
    requires
        spec_device_type_of(code) is Some,
    ensures
        spec_device_type_of(code) == Some(t),
{
    match DeviceType::try_from(code) {
        Ok(t) => t,
        Err(_) => {
            proof {
                assert(false);
            }
            DeviceType::EbcA20
        },
    }
}

/// The firmware version written as major, minor and patch number.
fn version_text(version: u16) -> (s: String)
    ensures
        s@ == spec_version_text(version as int),
{
    let major = version / 100;
    let minor = (version % 100) / 10;
    let patch = version % 10;
    let mut s = decimal_string(major as u64);
    s.append(".");
    let minor_text = decimal_string(minor as u64);
    s.append(minor_text.as_str());
    s.append(".");
    let patch_text = decimal_string(patch as u64);
    s.append(patch_text.as_str());
    s
}

impl InboundFrame {
    fn construct_firmware_report(payload: &[u8]) -> (f: Self)
        requires
            payload@.len() == 16,
            spec_is_firmware_code(payload@[0]),
            spec_payload_decodable(payload@),
        ensures
            spec_payload_decodes_to(payload@, f),
    {
        let command_byte = payload[0];
        let in_progress = command_byte == 0x70 || command_byte == 0x6F || command_byte == 0x6E;
        let device_mode = if command_byte == 0x70 || command_byte == 0x66 {
            DeviceMode::ChargeConstantVoltage
        } else if command_byte == 0x6F || command_byte == 0x65 {
            DeviceMode::DischargeConstantPower
        } else {
            DeviceMode::DischargeConstantCurrent
        };
        let version = decode_base240(payload[9], payload[10]);
        Self::Firmware(
            FirmwareReport {
                device_mode,
                in_progress,
                current_ma: decode_base240(payload[1], payload[2]) * 10,
                voltage_mv: decode_base240(payload[3], payload[4]),
                milli_ampere_hours: decode_base240(payload[5], payload[6]),
                unknown: decode_base240(payload[7], payload[8]),
                firmware_version: version_text(version),
                unknown1: decode_base240(payload[11], payload[12]),
                unknown2: decode_base240(payload[13], payload[14]),
                device_type: known_device_type(payload[15]),
            },
        )
    }

    fn construct_charge_report(payload: &[u8]) -> (f: Self)
        requires
            payload@.len() == 16,
            spec_is_charge_code(payload@[0]),
            spec_payload_decodable(payload@),
        ensures
            spec_payload_decodes_to(payload@, f),
    {
        let command_byte = payload[0];
        Self::Charge(
            ChargeReport {
                in_progress: command_byte == 0x0C,
                current_ma: decode_base240(payload[1], payload[2]) * 10,
                voltage_mv: decode_base240(payload[3], payload[4]),
                milli_ampere_hours: decode_base240(payload[5], payload[6]),
                unknown: decode_base240(payload[7], payload[8]),
                charge_current_ma: decode_base240(payload[9], payload[10]) * 10,
                charge_voltage_mv: decode_base240(payload[11], payload[12]),
                cutoff_current_ma: decode_base240(payload[13], payload[14]),
                device_type: known_device_type(payload[15]),
            },
        )
    }

    fn construct_discharge_constant_current_report(payload: &[u8]) -> (f: Self)
        requires
            payload@.len() == 16,
            spec_is_discharge_current_code(payload@[0]),
            spec_payload_decodable(payload@),
        ensures
            spec_payload_decodes_to(payload@, f),
    {
        let command_byte = payload[0];
        Self::DischargeConstantCurrent(
            DischargeConstantCurrentReport {
                in_progress: command_byte == 0x0A,
                current_ma: decode_base240(payload[1], payload[2]) * 10,
                voltage_mv: decode_base240(payload[3], payload[4]),
                milli_ampere_hours: decode_base240(payload[5], payload[6]),
                unknown: decode_base240(payload[7], payload[8]),
                discharge_current_ma: decode_base240(payload[9], payload[10]) * 10,
                cutoff_voltage_mv: decode_base240(payload[11], payload[12]) * 10,
                cutoff_time_min: decode_base240(payload[13], payload[14]),
                device_type: known_device_type(payload[15]),
            },
        )
    }

    fn construct_discharge_constant_power_report(payload: &[u8]) -> (f: Self)
        requires
            payload@.len() == 16,
            spec_is_discharge_power_code(payload@[0]),
            spec_payload_decodable(payload@),
        ensures
            spec_payload_decodes_to(payload@, f),
    {
        let command_byte = payload[0];
        Self::DischargeConstantPower(
            DischargeConstantPowerReport {
                in_progress: command_byte == 0x0B,
                current_ma: decode_base240(payload[1], payload[2]) * 10,
                voltage_mv: decode_base240(payload[3], payload[4]),
                milli_ampere_hours: decode_base240(payload[5], payload[6]),
                unknown: decode_base240(payload[7], payload[8]),
                discharge_power_w: decode_base240(payload[9], payload[10]),
                cutoff_voltage_mv: decode_base240(payload[11], payload[12]),
                cutoff_time_min: decode_base240(payload[13], payload[14]),
                device_type: known_device_type(payload[15]),
            },
        )
    }

    /// Reads a report from the raw bytes of one frame, or says why they are
    /// no report.
    pub fn try_from(value: &[u8]) -> (r: Result<Self, String>)
        requires
            spec_frame_decodable(value@),
        ensures
            match r {
                Ok(f) => spec_frame_error(value@) is None && spec_decodes_to(value@, f),
                Err(e) => spec_frame_error(value@) == Some(e@),
            },
    {
        if value.len() != INBOUND_FRAME_SIZE {
            let mut s = String::from_str("Frame length mismatch: expected 19, got ");
            let got = decimal_string(value.len() as u64);
            s.append(got.as_str());
            return Err(s);
        }
        if value[0] != START_BYTE {
            let mut s = String::from_str("Invalid start byte: expected 0xfa, got ");
            let got = hex_byte_string(value[0]);
            s.append(got.as_str());
            return Err(s);
        }
        if value[value.len() - 1] != END_BYTE {
            let mut s = String::from_str("Invalid end byte: expected 0xf8, got ");
            let got = hex_byte_string(value[value.len() - 1]);
            s.append(got.as_str());
            return Err(s);
        }
        let payload = &value[1..value.len() - 2];
        let command_byte = payload[0];
        if command_byte == 0x70 || command_byte == 0x66 || command_byte == 0x6F || command_byte
            == 0x65 || command_byte == 0x6E || command_byte == 0x64 {
            Ok(Self::construct_firmware_report(payload))
        } else if command_byte == 0x0C || command_byte == 0x02 || command_byte == 0x16 {
            Ok(Self::construct_charge_report(payload))
        } else if command_byte == 0x0A || command_byte == 0x00 || command_byte == 0x14 {
            Ok(Self::construct_discharge_constant_current_report(payload))
        } else if command_byte == 0x0B || command_byte == 0x01 || command_byte == 0x15 {
            Ok(Self::construct_discharge_constant_power_report(payload))
        } else {
            let mut s = String::from_str("Unknown command byte: ");
            let got = hex_byte_string(command_byte);
            s.append(got.as_str());
            Err(s)
        }
    }

    /// Whether `try_from` reads these bytes without failing.
    pub fn is_decodable(value: &[u8]) -> (b: bool)
        ensures
            b == spec_frame_decodable(value@),
    {
        if value.len() != INBOUND_FRAME_SIZE || value[0] != START_BYTE || value[value.len() - 1]
            != END_BYTE {
            return true;
        }
        let command_byte = value[1];
        let known = command_byte == 0x70 || command_byte == 0x66 || command_byte == 0x6F
            || command_byte == 0x65 || command_byte == 0x6E || command_byte == 0x64
            || command_byte == 0x0C || command_byte == 0x02 || command_byte == 0x16
            || command_byte == 0x0A || command_byte == 0x00 || command_byte == 0x14
            || command_byte == 0x0B || command_byte == 0x01 || command_byte == 0x15;
        if !known {
            return true;
        }
        let charge = command_byte == 0x0C || command_byte == 0x02 || command_byte == 0x16;
        let discharge_current = command_byte == 0x0A || command_byte == 0x00 || command_byte
            == 0x14;
        let device_known = DeviceType::try_from(value[16]).is_ok();
        let current_fits = decode_base240(value[2], value[3]) <= 6553;
        let field9_fits = decode_base240(value[10], value[11]) <= 6553;
        let field11_fits = decode_base240(value[12], value[13]) <= 6553;
        proof {
            assert(value@.subrange(1, 17)[0] == value@[1]);
            assert(value@.subrange(1, 17)[15] == value@[16]);
            assert(value@.subrange(1, 17)[1] == value@[2]);
            assert(value@.subrange(1, 17)[2] == value@[3]);
            assert(value@.subrange(1, 17)[9] == value@[10]);
            assert(value@.subrange(1, 17)[10] == value@[11]);
            assert(value@.subrange(1, 17)[11] == value@[12]);
            assert(value@.subrange(1, 17)[12] == value@[13]);
        }
        device_known && current_fits && ((!charge && !discharge_current) || field9_fits) && (
        !discharge_current || field11_fits)
    }
}


/// Index of the first occurrence of `b` in `s`.
pub open spec fn spec_find(s: Seq<u8>, b: u8) -> Option<int>
    decreases s.len(),
{
    if s.len() == 0 {
        None
    } else if s[0] == b {
        Some(0)
    } else {
        match spec_find(s.drop_first(), b) {
            Some(i) => Some(i + 1),
            None => None,
        }
    }
}

/// `spec_find` gives the first index that holds `b`, or `None` if none does.
pub proof fn lemma_find(s: Seq<u8>, b: u8)
    ensures
        match spec_find(s, b) {
            Some(i) => 0 <= i < s.len() && s[i] == b && forall|j: int| 0 <= j < i ==> s[j] != b,
            None => forall|j: int| 0 <= j < s.len() ==> s[j] != b,
        },
    decreases s.len(),
{
    if s.len() > 0 && s[0] != b {
        lemma_find(s.drop_first(), b);
        assert forall|j: int| 1 <= j < s.len() implies s[j] == s.drop_first()[j - 1] by {}
    }
}

proof fn lemma_find_scan(s: Seq<u8>, b: u8, k: int)
    requires
        0 <= k <= s.len(),
        forall|j: int| 0 <= j < k ==> s[j] != b,
        k == s.len() || s[k] == b,
    ensures
        spec_find(s, b) == (if k == s.len() { None::<int> } else { Some(k) }),
    decreases k,
{
    if k > 0 {
        assert forall|j: int| 0 <= j < k - 1 implies s.drop_first()[j] != b by {
            assert(s.drop_first()[j] == s[j + 1]);
        }
        lemma_find_scan(s.drop_first(), b, k - 1);
    }
}

proof fn lemma_find_append(x: Seq<u8>, y: Seq<u8>, b: u8)
    requires
        spec_find(x, b) is Some,
    ensures
        spec_find(x + y, b) == spec_find(x, b),
    decreases x.len(),
{
    if x[0] != b {
        assert((x + y).drop_first() =~= x.drop_first() + y);
        lemma_find_append(x.drop_first(), y, b);
    }
}

/// Splits a byte stream into the complete frames it holds and the bytes
/// kept for later. Bytes before a start marker are dropped; a frame runs
/// from a start marker to the first end marker after it; what follows the
/// last complete frame is kept from its start marker on, or dropped if it
/// holds none.
pub open spec fn spec_split_frames(buf: Seq<u8>) -> (Seq<Seq<u8>>, Seq<u8>)
    decreases buf.len(),
{
    if buf.len() == 0 {
        (Seq::empty(), Seq::empty())
    } else if buf[0] != START_BYTE {
        spec_split_frames(buf.drop_first())
    } else {
        match spec_find(buf.drop_first(), END_BYTE) {
            None => (Seq::empty(), buf),
            Some(e) => {
                proof {
                    lemma_find(buf.drop_first(), END_BYTE);
                }
                let next = spec_split_frames(buf.skip(e + 2));
                (seq![buf.take(e + 2)] + next.0, next.1)
            },
        }
    }
}

/// The raw frames that are reports, in their order.
pub open spec fn spec_accepted(raws: Seq<Seq<u8>>) -> Seq<Seq<u8>>
    decreases raws.len(),
{
    if raws.len() == 0 {
        Seq::empty()
    } else if spec_frame_error(raws.last()) is None {
        spec_accepted(raws.drop_last()).push(raws.last())
    } else {
        spec_accepted(raws.drop_last())
    }
}

/// Whether every complete frame in the buffer can be read without failing.
pub open spec fn spec_buffer_decodable(buf: Seq<u8>) -> bool {
    let raws = spec_split_frames(buf).0;
    forall|i: int| 0 <= i < raws.len() ==> spec_frame_decodable(#[trigger] raws[i])
}

/// The complete frames in `buf`, each as its own vector, and the index from
/// which the bytes kept for later start.
fn split_frames(buf: &[u8]) -> (r: (Vec<Vec<u8>>, usize))
    ensures
        r.1 <= buf@.len(),
        spec_split_frames(buf@).0 == r.0@.map_values(|v: Vec<u8>| v@),
        spec_split_frames(buf@).1 == buf@.skip(r.1 as int),
{
    let len = buf.len();
    let mut raws: Vec<Vec<u8>> = Vec::new();
    let mut pos: usize = 0;
    assert(buf@.skip(0) =~= buf@);
    assert(raws@.map_values(|v: Vec<u8>| v@) =~= Seq::<Seq<u8>>::empty());
    loop
        invariant
            len == buf@.len(),
            pos <= len,
            spec_split_frames(buf@) == (raws@.map_values(|v: Vec<u8>| v@) + spec_split_frames(
                buf@.skip(pos as int),
            ).0, spec_split_frames(buf@.skip(pos as int)).1),
        decreases len - pos,
    {
        let mut start: usize = pos;
        while start < len && buf[start] != START_BYTE
            invariant
                len == buf@.len(),
                pos <= start <= len,
                spec_split_frames(buf@.skip(pos as int)) == spec_split_frames(
                    buf@.skip(start as int),
                ),
            decreases len - start,
        {
            assert(buf@.skip(start as int).drop_first() =~= buf@.skip(start + 1));
            start = start + 1;
        }
        if start == len {
            proof {
                assert(buf@.skip(len as int).len() == 0);
                assert(raws@.map_values(|v: Vec<u8>| v@) + Seq::<Seq<u8>>::empty() =~= raws@.map_values(
                    |v: Vec<u8>| v@,
                ));
            }
            return (raws, len);
        }
        let mut end: usize = start + 1;
        while end < len && buf[end] != END_BYTE
            invariant
                len == buf@.len(),
                start < end <= len,
                buf@[start as int] == START_BYTE,
                forall|k: int| start < k < end ==> buf@[k] != END_BYTE,
            decreases len - end,
        {
            end = end + 1;
        }
        let ghost t = buf@.skip(start as int);
        proof {
            assert(t[0] == START_BYTE);
            assert forall|j: int| 0 <= j < end - start - 1 implies t.drop_first()[j] != END_BYTE by {
                assert(t.drop_first()[j] == buf@[start + 1 + j]);
            }
            if end < len {
                assert(t.drop_first()[end - start - 1] == buf@[end as int]);
            }
            lemma_find_scan(t.drop_first(), END_BYTE, end - start - 1);
        }
        if end == len {
            proof {
                assert(raws@.map_values(|v: Vec<u8>| v@) + Seq::<Seq<u8>>::empty() =~= raws@.map_values(
                    |v: Vec<u8>| v@,
                ));
            }
            return (raws, start);
        }
        let raw = slice_to_vec(&buf[start..end + 1]);
        let ghost old_view = raws@.map_values(|v: Vec<u8>| v@);
        raws.push(raw);
        proof {
            assert(t.take(end - start + 1) =~= buf@.subrange(start as int, end + 1));
            assert(t.skip(end - start + 1) =~= buf@.skip(end + 1));
            assert(raws@.map_values(|v: Vec<u8>| v@) =~= old_view.push(raw@));
            let next = spec_split_frames(buf@.skip(end + 1));
            assert(old_view + (seq![raw@] + next.0) =~= old_view.push(raw@) + next.0);
        }
        pos = end + 1;
    }
}

/// Takes the complete frames out of the receive buffer and reads them. The
/// buffer keeps only what may still become a frame; frames that are no
/// report are dropped. Each report comes with its raw bytes.
pub fn process_buffer(buf: &mut Vec<u8>) -> (frames: Vec<(InboundFrame, Vec<u8>)>)
    requires
        spec_buffer_decodable(old(buf)@),
    ensures
        final(buf)@ == spec_split_frames(old(buf)@).1,
        frames@.len() == spec_accepted(spec_split_frames(old(buf)@).0).len(),
        forall|i: int|
            0 <= i < frames@.len() ==> {
                let raw = spec_accepted(spec_split_frames(old(buf)@).0)[i];
                &&& (#[trigger] frames@[i]).1@ == raw
                &&& spec_decodes_to(raw, frames@[i].0)
            },
{
    let (raws, rest_start) = split_frames(buf.as_slice());
    let ghost all = spec_split_frames(buf@).0;
    let mut frames: Vec<(InboundFrame, Vec<u8>)> = Vec::new();
    let mut i: usize = 0;
    while i < raws.len()
        invariant
            all == raws@.map_values(|v: Vec<u8>| v@),
            spec_buffer_decodable(old(buf)@),
            all == spec_split_frames(old(buf)@).0,
            i <= raws.len(),
            frames@.len() == spec_accepted(all.take(i as int)).len(),
            forall|j: int|
                0 <= j < frames@.len() ==> {
                    let raw = spec_accepted(all.take(i as int))[j];
                    &&& (#[trigger] frames@[j]).1@ == raw
                    &&& spec_decodes_to(raw, frames@[j].0)
                },
        decreases raws.len() - i,
    {
        let raw = &raws[i];
        assert(raw@ == all[i as int]);
        assert(all.take(i + 1).drop_last() =~= all.take(i as int));
        assert(spec_frame_decodable(all[i as int]));
        match InboundFrame::try_from(raw.as_slice()) {
            Ok(f) => {
                let copy = slice_to_vec(raw.as_slice());
                frames.push((f, copy));
            },
            Err(_) => {},
        }
        i = i + 1;
    }
    assert(all.take(raws@.len() as int) =~= all);
    let rest = slice_to_vec(&buf.as_slice()[rest_start..buf.len()]);
    assert(buf@.skip(rest_start as int) =~= buf@.subrange(rest_start as int, buf@.len() as int));
    *buf = rest;
    frames
}

/// Whether `process_buffer` reads every complete frame in the buffer
/// without failing.
pub fn buffer_is_decodable(buf: &[u8]) -> (b: bool)
    ensures
        b == spec_buffer_decodable(buf@),
{
    let (raws, _) = split_frames(buf);
    let ghost all = spec_split_frames(buf@).0;
    assert(all.len() == raws@.len());
    let mut i: usize = 0;
    while i < raws.len()
        invariant
            all == raws@.map_values(|v: Vec<u8>| v@),
            all == spec_split_frames(buf@).0,
            all.len() == raws@.len(),
            i <= raws.len(),
            forall|j: int| 0 <= j < i ==> spec_frame_decodable(#[trigger] all[j]),
        decreases raws.len() - i,
    {
        assert(all[i as int] == raws@[i as int]@);
        if !InboundFrame::is_decodable(raws[i].as_slice()) {
            assert(!spec_frame_decodable(all[i as int]));
            assert(i < all.len());
            assert(!spec_frame_decodable(spec_split_frames(buf@).0[i as int]));
            return false;
        }
        i = i + 1;
    }
    assert(all.len() == raws@.len());
    true
}


/// Every outbound frame is ten bytes long, opens with the start marker and
/// closes with the end marker, its checksum makes the XOR of the payload
/// and checksum bytes zero, and no payload byte is a marker.
pub proof fn lemma_outbound_frame_shape(k: OutboundFrameKind)
    requires
        spec_kind_encodable(k),
    ensures
        ({
            let bytes = spec_outbound_bytes(k);
            &&& bytes.len() == OUTBOUND_FRAME_SIZE
            &&& bytes[0] == START_BYTE
            &&& bytes[9] == END_BYTE
            &&& spec_xor(bytes.subrange(1, 9)) == 0
            &&& forall|i: int| 1 <= i < 8 ==> bytes[i] != START_BYTE && bytes[i] != END_BYTE
        }),
{
    let payload = spec_outbound_payload(k);
    assert forall|i: int| 0 <= i < 7 implies payload[i] <= 240 by {
        lemma_kind_payload_bytes_small(k, i);
    }
    lemma_frame_shape(payload);
}

proof fn lemma_frame_shape(payload: Seq<u8>)
    requires
        payload.len() == 7,
        forall|i: int| 0 <= i < 7 ==> payload[i] <= 240,
    ensures
        ({
            let bytes = spec_frame(payload);
            &&& bytes.len() == OUTBOUND_FRAME_SIZE
            &&& bytes[0] == START_BYTE
            &&& bytes[9] == END_BYTE
            &&& spec_xor(bytes.subrange(1, 9)) == 0
            &&& forall|i: int| 1 <= i < 8 ==> bytes[i] != START_BYTE && bytes[i] != END_BYTE
        }),
{
    let bytes = spec_frame(payload);
    assert(bytes.subrange(1, 9) =~= payload.push(spec_xor(payload)));
    lemma_xor_with_checksum_is_zero(payload);
    assert forall|i: int| 1 <= i < 8 implies bytes[i] != START_BYTE && bytes[i] != END_BYTE by {
        assert(bytes[i] == payload[i - 1]);
    }
}

proof fn lemma_encoded_small(v: int)
    requires
        0 <= v < BASE240_LIMIT,
    ensures
        spec_encode_base240(v)[0] <= 240,
        spec_encode_base240(v)[1] < 240,
{
}

proof fn lemma_kind_payload_bytes_small(k: OutboundFrameKind, i: int)
    requires
        spec_kind_encodable(k),
        0 <= i < 7,
    ensures
        spec_outbound_payload(k).len() == 7,
        spec_outbound_payload(k)[i] <= 240,
{
    match k {
        OutboundFrameKind::StartConstantCurrentDischarge { discharge_current_ma, cutoff_voltage_mv, cutoff_time_min }
        | OutboundFrameKind::AdjustConstantCurrentDischarge { discharge_current_ma, cutoff_voltage_mv, cutoff_time_min }
        | OutboundFrameKind::ContinueConstantCurrentDischarge { discharge_current_ma, cutoff_voltage_mv, cutoff_time_min } => {
            lemma_encoded_small((discharge_current_ma / 10) as int);
            lemma_encoded_small((cutoff_voltage_mv / 10) as int);
            lemma_encoded_small(cutoff_time_min as int);
        },
        OutboundFrameKind::StartConstantPowerDischarge { discharge_power_w, cutoff_voltage_mv, cutoff_time_min }
        | OutboundFrameKind::AdjustConstantPowerDischarge { discharge_power_w, cutoff_voltage_mv, cutoff_time_min }
        | OutboundFrameKind::ContinueConstantPowerDischarge { discharge_power_w, cutoff_voltage_mv, cutoff_time_min } => {
            lemma_encoded_small(discharge_power_w as int);
            lemma_encoded_small((cutoff_voltage_mv / 10) as int);
            lemma_encoded_small(cutoff_time_min as int);
        },
        OutboundFrameKind::StartConstantCurrentVoltageCharge { charge_current_ma, charge_voltage_mv, cutoff_current_ma }
        | OutboundFrameKind::AdjustConstantCurrentVoltageCharge { charge_current_ma, charge_voltage_mv, cutoff_current_ma }
        | OutboundFrameKind::ContinueConstantCurrentVoltageCharge { charge_current_ma, charge_voltage_mv, cutoff_current_ma } => {
            lemma_encoded_small((charge_current_ma / 10) as int);
            lemma_encoded_small((charge_voltage_mv / 10) as int);
            lemma_encoded_small((cutoff_current_ma / 10) as int);
        },
        OutboundFrameKind::TimerSync { time_in_min } => {
            lemma_encoded_small(time_in_min as int);
        },
        OutboundFrameKind::CalibrateVoltageLow { mv } | OutboundFrameKind::CalibrateVoltageHigh { mv } => {
            lemma_encoded_small(mv as int);
        },
        OutboundFrameKind::CalibrateCurrentLow { ma } | OutboundFrameKind::CalibrateCurrentHigh { ma } => {
            lemma_encoded_small(ma as int);
        },
        OutboundFrameKind::CalibrateConfirm => {
            lemma_encoded_small(0);
        },
        _ => {},
    }
}

/// Each frame cut out of a stream runs from a start marker to the first end
/// marker after it, and the bytes kept for later are empty or open with a
/// start marker and hold no end marker after it.
pub proof fn lemma_split_frames_shape(buf: Seq<u8>)
    ensures
        ({
            let (raws, rest) = spec_split_frames(buf);
            &&& forall|i: int|
                0 <= i < raws.len() ==> {
                    let r = #[trigger] raws[i];
                    &&& r.len() >= 2
                    &&& r[0] == START_BYTE
                    &&& r.last() == END_BYTE
                    &&& forall|k: int| 1 <= k < r.len() - 1 ==> r[k] != END_BYTE
                }
            &&& rest.len() == 0 || (rest[0] == START_BYTE && forall|k: int|
                1 <= k < rest.len() ==> rest[k] != END_BYTE)
        }),
    decreases buf.len(),
{
    if buf.len() == 0 {
    } else if buf[0] != START_BYTE {
        lemma_split_frames_shape(buf.drop_first());
    } else {
        lemma_find(buf.drop_first(), END_BYTE);
        match spec_find(buf.drop_first(), END_BYTE) {
            None => {
                assert forall|k: int| 1 <= k < buf.len() implies buf[k] != END_BYTE by {
                    assert(buf[k] == buf.drop_first()[k - 1]);
                }
            },
            Some(e) => {
                lemma_split_frames_shape(buf.skip(e + 2));
                let r = buf.take(e + 2);
                let (raws, rest) = spec_split_frames(buf);
                let next = spec_split_frames(buf.skip(e + 2)).0;
                assert(raws == seq![r] + next);
                assert(r.last() == buf.drop_first()[e]);
                assert forall|k: int| 1 <= k < r.len() - 1 implies r[k] != END_BYTE by {
                    assert(r[k] == buf.drop_first()[k - 1]);
                }
                assert forall|i: int| 0 <= i < raws.len() implies {
                    let x = #[trigger] raws[i];
                    &&& x.len() >= 2
                    &&& x[0] == START_BYTE
                    &&& x.last() == END_BYTE
                    &&& forall|k: int| 1 <= k < x.len() - 1 ==> x[k] != END_BYTE
                } by {
                    if i > 0 {
                        assert(raws[i] == next[i - 1]);
                    }
                }
            },
        }
    }
}

/// Cutting frames out of a stream in two steps, keeping the remainder of the
/// first step in front of the second chunk, gives the same frames and the
/// same remainder as cutting them out of the whole stream at once.
pub proof fn lemma_split_frames_append(a: Seq<u8>, b: Seq<u8>)
    ensures
        ({
            let (raws_a, rest_a) = spec_split_frames(a);
            let (raws_b, rest_b) = spec_split_frames(rest_a + b);
            spec_split_frames(a + b) == (raws_a + raws_b, rest_b)
        }),
    decreases a.len(),
{
    let (raws_a, rest_a) = spec_split_frames(a);
    if a.len() == 0 {
        assert(a + b =~= b);
        assert(rest_a + b =~= b);
        assert(raws_a + spec_split_frames(b).0 =~= spec_split_frames(b).0);
    } else if a[0] != START_BYTE {
        assert((a + b).drop_first() =~= a.drop_first() + b);
        assert((a + b)[0] == a[0]);
        lemma_split_frames_append(a.drop_first(), b);
    } else {
        assert((a + b)[0] == a[0]);
        assert((a + b).drop_first() =~= a.drop_first() + b);
        lemma_find(a.drop_first(), END_BYTE);
        match spec_find(a.drop_first(), END_BYTE) {
            None => {
                assert(rest_a == a);
                assert(raws_a + spec_split_frames(a + b).0 =~= spec_split_frames(a + b).0);
            },
            Some(e) => {
                lemma_find_append(a.drop_first(), b, END_BYTE);
                lemma_find(a.drop_first() + b, END_BYTE);
                assert((a + b).take(e + 2) =~= a.take(e + 2));
                assert((a + b).skip(e + 2) =~= a.skip(e + 2) + b);
                lemma_split_frames_append(a.skip(e + 2), b);
                let (raws_n, rest_n) = spec_split_frames(a.skip(e + 2));
                let (raws_b, rest_b) = spec_split_frames(rest_n + b);
                assert(seq![a.take(e + 2)] + (raws_n + raws_b) =~= (seq![a.take(e + 2)] + raws_n)
                    + raws_b);
            },
        }
    }
}

/// The reports among two lists of raw frames, one after the other, are the
/// reports of each list one after the other.
pub proof fn lemma_accepted_append(x: Seq<Seq<u8>>, y: Seq<Seq<u8>>)
    ensures
        spec_accepted(x + y) == spec_accepted(x) + spec_accepted(y),
    decreases y.len(),
{
    if y.len() == 0 {
        assert(x + y =~= x);
        assert(spec_accepted(x) + spec_accepted(y) =~= spec_accepted(x));
    } else {
        assert((x + y).drop_last() =~= x + y.drop_last());
        assert((x + y).last() == y.last());
        lemma_accepted_append(x, y.drop_last());
        if spec_frame_error(y.last()) is None {
            assert(spec_accepted(x) + spec_accepted(y.drop_last()).push(y.last()) =~= (
            spec_accepted(x) + spec_accepted(y.drop_last())).push(y.last()));
        }
    }
}

/// Bytes that arrive in two chunks yield the same reports, in the same
/// order, and leave the same bytes for later as when they arrive at once.
pub proof fn lemma_stream_in_chunks(a: Seq<u8>, b: Seq<u8>)
    ensures
        ({
            let (raws_a, rest_a) = spec_split_frames(a);
            let (raws_b, rest_b) = spec_split_frames(rest_a + b);
            &&& spec_accepted(raws_a) + spec_accepted(raws_b) == spec_accepted(
                spec_split_frames(a + b).0,
            )
            &&& rest_b == spec_split_frames(a + b).1
        }),
{
    lemma_split_frames_append(a, b);
    let (raws_a, rest_a) = spec_split_frames(a);
    let (raws_b, rest_b) = spec_split_frames(rest_a + b);
    lemma_accepted_append(raws_a, raws_b);
}


impl InboundFrame {
    /// A copy of the report.
    pub fn duplicate(&self) -> (c: Self)
        ensures
            c == *self,
    {
        match self {
            InboundFrame::Firmware(r) => InboundFrame::Firmware(
                FirmwareReport {
                    device_mode: r.device_mode,
                    in_progress: r.in_progress,
                    current_ma: r.current_ma,
                    voltage_mv: r.voltage_mv,
                    milli_ampere_hours: r.milli_ampere_hours,
                    unknown: r.unknown,
                    firmware_version: r.firmware_version.clone(),
                    unknown1: r.unknown1,
                    unknown2: r.unknown2,
                    device_type: r.device_type,
                },
            ),
            InboundFrame::DischargeConstantCurrent(r) => InboundFrame::DischargeConstantCurrent(*r),
            InboundFrame::DischargeConstantPower(r) => InboundFrame::DischargeConstantPower(*r),
            InboundFrame::Charge(r) => InboundFrame::Charge(*r),
        }
    }
}


/// The first firmware report among `frames`, if there is one.
pub open spec fn spec_first_firmware(frames: Seq<InboundFrame>) -> Option<FirmwareReport>
    decreases frames.len(),
{
    if frames.len() == 0 {
        None
    } else if let InboundFrame::Firmware(r) = frames[0] {
        Some(r)
    } else {
        spec_first_firmware(frames.drop_first())
    }
}

/// The first firmware report among the frames just read, which a device
/// sends after it was asked to connect.
pub fn first_firmware_report(frames: &Vec<InboundFrame>) -> (r: Option<FirmwareReport>)
    ensures
        r == spec_first_firmware(frames@),
{
    let mut i: usize = 0;
    assert(frames@.skip(0) =~= frames@);
    while i < frames.len()
        invariant
            i <= frames@.len(),
            spec_first_firmware(frames@) == spec_first_firmware(frames@.skip(i as int)),
        decreases frames.len() - i,
    {
        let ghost rest = frames@.skip(i as int);
        assert(rest[0] == frames@[i as int]);
        assert(rest.drop_first() =~= frames@.skip(i + 1));
        match frames[i].duplicate() {
            InboundFrame::Firmware(report) => {
                return Some(report);
            },
            _ => {},
        }
        i = i + 1;
    }
    None
}

/// The measured current of any report, in mA.
pub open spec fn spec_report_current_ma(f: InboundFrame) -> int {
    match f {
        InboundFrame::Firmware(r) => r.current_ma as int,
        InboundFrame::DischargeConstantCurrent(r) => r.current_ma as int,
        InboundFrame::DischargeConstantPower(r) => r.current_ma as int,
        InboundFrame::Charge(r) => r.current_ma as int,
    }
}

/// The measured voltage of any report, in mV.
pub open spec fn spec_report_voltage_mv(f: InboundFrame) -> int {
    match f {
        InboundFrame::Firmware(r) => r.voltage_mv as int,
        InboundFrame::DischargeConstantCurrent(r) => r.voltage_mv as int,
        InboundFrame::DischargeConstantPower(r) => r.voltage_mv as int,
        InboundFrame::Charge(r) => r.voltage_mv as int,
    }
}

/// The charge counted so far in any report, in mAh.
pub open spec fn spec_report_mah(f: InboundFrame) -> int {
    match f {
        InboundFrame::Firmware(r) => r.milli_ampere_hours as int,
        InboundFrame::DischargeConstantCurrent(r) => r.milli_ampere_hours as int,
        InboundFrame::DischargeConstantPower(r) => r.milli_ampere_hours as int,
        InboundFrame::Charge(r) => r.milli_ampere_hours as int,
    }
}

/// The device model that any report names.
pub open spec fn spec_report_device_type(f: InboundFrame) -> DeviceType {
    match f {
        InboundFrame::Firmware(r) => r.device_type,
        InboundFrame::DischargeConstantCurrent(r) => r.device_type,
        InboundFrame::DischargeConstantPower(r) => r.device_type,
        InboundFrame::Charge(r) => r.device_type,
    }
}

/// Every kind of report carries its measurements at the same places of the
/// 19-byte frame, each value as two base-240 digits, high digit first: the
/// current in tens of mA in bytes 2 and 3, the voltage in mV in bytes 4 and
/// 5, the charge in mAh in bytes 6 and 7; byte 16 names the model. The
/// command byte 1 tells the kind of report.
pub proof fn lemma_report_layout(raw: Seq<u8>, f: InboundFrame)
    requires
        raw.len() == 19,
        spec_decodes_to(raw, f),
    ensures
        spec_report_current_ma(f) == 10 * (240 * raw[2] + raw[3]),
        spec_report_voltage_mv(f) == 240 * raw[4] + raw[5],
        spec_report_mah(f) == 240 * raw[6] + raw[7],
        spec_device_type_of(raw[16]) == Some(spec_report_device_type(f)) || spec_device_type_of(raw[16]) is None,
        (raw[1] == 0x0B || raw[1] == 0x01 || raw[1] == 0x15) ==> f is DischargeConstantPower,
        (raw[1] == 0x0A || raw[1] == 0x00 || raw[1] == 0x14) ==> f is DischargeConstantCurrent,
        (raw[1] == 0x0C || raw[1] == 0x02 || raw[1] == 0x16) ==> f is Charge,
        (raw[1] == 0x70 || raw[1] == 0x66 || raw[1] == 0x6F || raw[1] == 0x65 || raw[1] == 0x6E
            || raw[1] == 0x64) ==> f is Firmware,
{
    let p = raw.subrange(1, 17);
    assert(p[0] == raw[1] && p[1] == raw[2] && p[2] == raw[3] && p[3] == raw[4] && p[4] == raw[5]
        && p[5] == raw[6] && p[6] == raw[7] && p[15] == raw[16]);
}

/// For the constant power report the set program follows the measurements:
/// the power in W in bytes 10 and 11, the cutoff voltage in mV in bytes 12
/// and 13 and the cutoff time in minutes in bytes 14 and 15.
pub proof fn lemma_power_report_layout(raw: Seq<u8>, r: DischargeConstantPowerReport)
    requires
        raw.len() == 19,
        spec_decodes_to(raw, InboundFrame::DischargeConstantPower(r)),
    ensures
        r.discharge_power_w == 240 * raw[10] + raw[11],
        r.cutoff_voltage_mv == 240 * raw[12] + raw[13],
        r.cutoff_time_min == 240 * raw[14] + raw[15],
        r.in_progress == (raw[1] == 0x0B),
{
    let p = raw.subrange(1, 17);
    assert(p[0] == raw[1] && p[9] == raw[10] && p[10] == raw[11] && p[11] == raw[12] && p[12]
        == raw[13] && p[13] == raw[14] && p[14] == raw[15]);
}

/// For the constant current report the set program follows the
/// measurements: the discharge current in tens of mA in bytes 10 and 11,
/// the cutoff voltage in tens of mV in bytes 12 and 13 and the cutoff time
/// in minutes in bytes 14 and 15.
pub proof fn lemma_current_report_layout(raw: Seq<u8>, r: DischargeConstantCurrentReport)
    requires
        raw.len() == 19,
        spec_decodes_to(raw, InboundFrame::DischargeConstantCurrent(r)),
    ensures
        r.discharge_current_ma == 10 * (240 * raw[10] + raw[11]),
        r.cutoff_voltage_mv == 10 * (240 * raw[12] + raw[13]),
        r.cutoff_time_min == 240 * raw[14] + raw[15],
        r.in_progress == (raw[1] == 0x0A),
{
    let p = raw.subrange(1, 17);
    assert(p[0] == raw[1] && p[9] == raw[10] && p[10] == raw[11] && p[11] == raw[12] && p[12]
        == raw[13] && p[13] == raw[14] && p[14] == raw[15]);
}

/// For the charge report the set program follows the measurements: the
/// charge current in tens of mA in bytes 10 and 11, the charge voltage in mV
/// in bytes 12 and 13 and the cutoff current in bytes 14 and 15.
pub proof fn lemma_charge_report_layout(raw: Seq<u8>, r: ChargeReport)
    requires
        raw.len() == 19,
        spec_decodes_to(raw, InboundFrame::Charge(r)),
    ensures
        r.charge_current_ma == 10 * (240 * raw[10] + raw[11]),
        r.charge_voltage_mv == 240 * raw[12] + raw[13],
        r.cutoff_current_ma == 240 * raw[14] + raw[15],
        r.in_progress == (raw[1] == 0x0C),
{
    let p = raw.subrange(1, 17);
    assert(p[0] == raw[1] && p[9] == raw[10] && p[10] == raw[11] && p[11] == raw[12] && p[12]
        == raw[13] && p[13] == raw[14] && p[14] == raw[15]);
}

/// The firmware report names the device's mode by its command byte (0x70
/// and 0x66 charge, 0x6F and 0x65 constant power, 0x6E and 0x64 constant
/// current; 0x70, 0x6F and 0x6E while a program runs) and carries the
/// firmware version in bytes 10 and 11.
pub proof fn lemma_firmware_report_layout(raw: Seq<u8>, r: FirmwareReport)
    requires
        raw.len() == 19,
        spec_decodes_to(raw, InboundFrame::Firmware(r)),
    ensures
        (raw[1] == 0x70 || raw[1] == 0x66) ==> r.device_mode == DeviceMode::ChargeConstantVoltage,
        (raw[1] == 0x6F || raw[1] == 0x65) ==> r.device_mode == DeviceMode::DischargeConstantPower,
        (raw[1] == 0x6E || raw[1] == 0x64) ==> r.device_mode == DeviceMode::DischargeConstantCurrent,
        r.in_progress == (raw[1] == 0x70 || raw[1] == 0x6F || raw[1] == 0x6E),
        r.firmware_version@ == spec_version_text(240 * raw[10] + raw[11]),
{
    let p = raw.subrange(1, 17);
    assert(p[0] == raw[1] && p[9] == raw[10] && p[10] == raw[11]);
}

} // verus!
