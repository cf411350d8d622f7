use vstd::prelude::*;

use crate::ebc::constants::{DeviceType, OUTBOUND_FRAME_SIZE};
use crate::ebc::device_capabilities::{ebc_a20_limits, CapabilityError, CapabilityLimits, DeviceCapabilities};
use crate::ebc::device_command::{
    command_frame, lemma_command_frame_carries_command, spec_command_frame, spec_device_command_byte,
    spec_device_command_values, DeviceCommand,
};
use crate::ebc::frame::{spec_outbound_bytes, InboundFrame, OutboundFrameKind};
use crate::ebc::report::FirmwareReport;

verus! {

/// A report of the device, as handed to subscribers.
#[derive(Clone, Debug)]
pub struct Event {
    pub frame: InboundFrame,
}

/// What is known of the device.
#[derive(Clone, Debug)]
pub struct DeviceInfo {
    pub device_type: DeviceType,
    pub fw_version: String,
    pub capabilities: DeviceCapabilities,
}

/// The state that the runner of one device keeps: the device's last report
/// and its capabilities.
pub struct RunnerState {
    latest_report: InboundFrame,
    capabilities: DeviceCapabilities,
}

impl RunnerState {
    /// The report that the device sent last.
    pub closed spec fn latest(&self) -> InboundFrame {
        self.latest_report
    }

    /// The limits of the device.
    pub closed spec fn limits(&self) -> CapabilityLimits {
        self.capabilities@
    }

    /// The state after the device's first firmware report.
    pub fn new(report: FirmwareReport) -> (s: Self)
        requires
            report.device_type == DeviceType::EbcA20,
        ensures
            s.latest() == InboundFrame::Firmware(report),
            s.limits() == ebc_a20_limits(),
    {
        let capabilities = DeviceCapabilities::from(report.device_type);
        RunnerState { latest_report: InboundFrame::Firmware(report), capabilities }
    }

    /// The answer to a status request: the last report.
    pub fn status(&self) -> (e: Event)
        ensures
            e.frame == self.latest(),
    {
        Event { frame: self.latest_report.duplicate() }
    }

    /// Notes the report that the device just sent.
    pub fn record_frame(&mut self, frame: InboundFrame)
        ensures
            final(self).latest() == frame,
            final(self).limits() == old(self).limits(),
    {
        self.latest_report = frame;
    }

    /// The bytes to send for a command, or the parameter that the device
    /// does not accept.
    pub fn command_bytes(&self, command: DeviceCommand) -> (r: Result<[u8; OUTBOUND_FRAME_SIZE], CapabilityError>)
        ensures
            match r {
                Ok(b) => {
                    &&& spec_command_frame(self.limits(), command) matches Ok(k) && b@ == spec_outbound_bytes(k)
                    &&& b@[1] == spec_device_command_byte(command)
                    &&& 240 * b@[2] + b@[3] == spec_device_command_values(command).0
                    &&& 240 * b@[4] + b@[5] == spec_device_command_values(command).1
                    &&& 240 * b@[6] + b@[7] == spec_device_command_values(command).2
                },
                Err(e) => spec_command_frame(self.limits(), command) == Err::<OutboundFrameKind, CapabilityError>(e),
            },
    {
        self.capabilities.limits_fit_frames();
        proof {
            lemma_command_frame_carries_command(self.capabilities@, command);
        }
        match command_frame(command, &self.capabilities) {
            Ok(frame) => Ok(frame.into_bytes()),
            Err(e) => Err(e),
        }
    }
}

/// A stop is always sent: it needs no parameters that a device could refuse.
pub proof fn lemma_stop_always_accepted(l: CapabilityLimits)
    ensures
        spec_command_frame(l, DeviceCommand::Stop) == Ok::<OutboundFrameKind, CapabilityError>(
            OutboundFrameKind::Stop,
        ),
{
}

} // verus!
