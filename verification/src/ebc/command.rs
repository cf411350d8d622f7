use vstd::prelude::*;

use crate::ebc::codec::{
    encode_base240, spec_encode_base240, spec_xor, xor_checksum, BASE240_LIMIT,
};
use crate::ebc::constants::{END_BYTE, OUTBOUND_FRAME_SIZE, START_BYTE};

verus! {

/// Command codes that open an outbound payload.
pub enum CommandType {
    Connect,
    Disconnect,
    Stop,
    StartConstantCurrentDischarge,
    AdjustConstantCurrentDischarge,
    ContinueConstantCurrentDischarge,
    StartConstantPowerDischarge,
    AdjustConstantPowerDischarge,
    ContinueConstantPowerDischarge,
    StartConstantCurrentVoltageCharge,
    AdjustConstantCurrentVoltageCharge,
    ContinueConstantCurrentVoltageCharge,
    TimerSync,
    Calibration,
}

/// The byte that the device expects for each command.
pub open spec fn spec_command_code(c: CommandType) -> u8 {
    match c {
        CommandType::Connect => 0x05,
        CommandType::Disconnect => 0x06,
        CommandType::Stop => 0x02,
        CommandType::StartConstantCurrentDischarge => 0x01,
        CommandType::AdjustConstantCurrentDischarge => 0x07,
        CommandType::ContinueConstantCurrentDischarge => 0x08,
        CommandType::StartConstantPowerDischarge => 0x11,
        CommandType::AdjustConstantPowerDischarge => 0x17,
        CommandType::ContinueConstantPowerDischarge => 0x18,
        CommandType::StartConstantCurrentVoltageCharge => 0x21,
        CommandType::AdjustConstantCurrentVoltageCharge => 0x27,
        CommandType::ContinueConstantCurrentVoltageCharge => 0x28,
        CommandType::TimerSync => 0x0A,
        CommandType::Calibration => 0x04,
    }
}

impl CommandType {
    /// The command byte.
    pub fn code(&self) -> (c: u8)
        ensures
            c == spec_command_code(*self),
    {
        match self {
            CommandType::Connect => 0x05,
            CommandType::Disconnect => 0x06,
            CommandType::Stop => 0x02,
            CommandType::StartConstantCurrentDischarge => 0x01,
            CommandType::AdjustConstantCurrentDischarge => 0x07,
            CommandType::ContinueConstantCurrentDischarge => 0x08,
            CommandType::StartConstantPowerDischarge => 0x11,
            CommandType::AdjustConstantPowerDischarge => 0x17,
            CommandType::ContinueConstantPowerDischarge => 0x18,
            CommandType::StartConstantCurrentVoltageCharge => 0x21,
            CommandType::AdjustConstantCurrentVoltageCharge => 0x27,
            CommandType::ContinueConstantCurrentVoltageCharge => 0x28,
            CommandType::TimerSync => 0x0A,
            CommandType::Calibration => 0x04,
        }
    }
}

/// An outbound frame around a seven-byte payload: the start marker, the
/// payload, the XOR checksum of the payload and the end marker.
pub open spec fn spec_frame(payload: Seq<u8>) -> Seq<u8> {
    seq![START_BYTE] + payload + seq![spec_xor(payload), END_BYTE]
}

/// A payload made of a command byte and three base-240 encoded values.
pub open spec fn spec_payload3(code: u8, a: int, b: int, c: int) -> Seq<u8> {
    seq![code] + spec_encode_base240(a) + spec_encode_base240(b) + spec_encode_base240(c)
}

/// A payload made of a command byte and six zero bytes.
pub open spec fn spec_payload_bare(code: u8) -> Seq<u8> {
    seq![code, 0u8, 0u8, 0u8, 0u8, 0u8, 0u8]
}

/// The timer synchronisation payload.
pub open spec fn spec_timer_sync_payload(minutes: int) -> Seq<u8> {
    seq![0x0Au8] + spec_encode_base240(minutes) + seq![0u8, 0u8, 0u8, 0u8]
}

/// The calibration payload for a step `sub` and a value.
pub open spec fn spec_calibration_payload(sub: u8, value: int) -> Seq<u8> {
    seq![0x04u8, sub] + spec_encode_base240(value) + seq![0u8, 0u8, 0u8]
}

/// Wraps a payload into a complete outbound frame.
fn build_frame(payload: [u8; 7]) -> (frame: [u8; OUTBOUND_FRAME_SIZE])
    ensures
        frame@ == spec_frame(payload@),
{
    let checksum = xor_checksum(payload.as_slice());
    let frame = [
        START_BYTE,
        payload[0],
        payload[1],
        payload[2],
        payload[3],
        payload[4],
        payload[5],
        payload[6],
        checksum,
        END_BYTE,
    ];
    assert(frame@ =~= spec_frame(payload@));
    frame
}

/// Frame for a payload of a command byte and three encoded values.
fn value_frame(command: CommandType, a: u16, b: u16, c: u16) -> (frame: [u8; OUTBOUND_FRAME_SIZE])
    requires
        a < BASE240_LIMIT,
        b < BASE240_LIMIT,
        c < BASE240_LIMIT,
    ensures
        frame@ == spec_frame(spec_payload3(spec_command_code(command), a as int, b as int, c as int)),
{
    let (a_h, a_l) = encode_base240(a);
    let (b_h, b_l) = encode_base240(b);
    let (c_h, c_l) = encode_base240(c);
    let payload = [command.code(), a_h, a_l, b_h, b_l, c_h, c_l];
    assert(payload@ =~= spec_payload3(spec_command_code(command), a as int, b as int, c as int));
    build_frame(payload)
}

/// Frame for a payload of a command byte only.
fn bare_frame(command: CommandType) -> (frame: [u8; OUTBOUND_FRAME_SIZE])
    ensures
        frame@ == spec_frame(spec_payload_bare(spec_command_code(command))),
{
    let payload = [command.code(), 0x00, 0x00, 0x00, 0x00, 0x00, 0x00];
    assert(payload@ =~= spec_payload_bare(spec_command_code(command)));
    build_frame(payload)
}

/// Asks the device to accept commands.
pub fn connect_command() -> (frame: [u8; OUTBOUND_FRAME_SIZE])
    ensures
        frame@ == spec_frame(spec_payload_bare(0x05)),
{
    bare_frame(CommandType::Connect)
}

/// Releases the device.
pub fn disconnect_command() -> (frame: [u8; OUTBOUND_FRAME_SIZE])
    ensures
        frame@ == spec_frame(spec_payload_bare(0x06)),
{
    bare_frame(CommandType::Disconnect)
}

/// Stops the running program.
pub fn stop_command() -> (frame: [u8; OUTBOUND_FRAME_SIZE])
    ensures
        frame@ == spec_frame(spec_payload_bare(0x02)),
{
    bare_frame(CommandType::Stop)
}

/// Sets the device timer to `minutes`.
pub fn timer_sync_command(minutes: u16) -> (frame: [u8; OUTBOUND_FRAME_SIZE])
    requires
        minutes < BASE240_LIMIT,
    ensures
        frame@ == spec_frame(spec_timer_sync_payload(minutes as int)),
{
    let (min_h, min_l) = encode_base240(minutes);
    let payload = [CommandType::TimerSync.code(), min_h, min_l, 0x00, 0x00, 0x00, 0x00];
    assert(payload@ =~= spec_timer_sync_payload(minutes as int));
    build_frame(payload)
}

/// One calibration step `sub` with a reference value.
pub fn calibration_command(sub: u8, value: u16) -> (frame: [u8; OUTBOUND_FRAME_SIZE])
    requires
        value < BASE240_LIMIT,
    ensures
        frame@ == spec_frame(spec_calibration_payload(sub, value as int)),
{
    let (val_h, val_l) = encode_base240(value);
    let payload = [CommandType::Calibration.code(), sub, val_h, val_l, 0x00, 0x00, 0x00];
    assert(payload@ =~= spec_calibration_payload(sub, value as int));
    build_frame(payload)
}

/// Starts a constant current discharge; current and cutoff voltage travel
/// in units of 10 mA and 10 mV.
pub fn start_constant_current_discharge_command(
    discharge_current_ma: u16,
    cutoff_voltage_mv: u16,
    cutoff_time_min: u16,
) -> (frame: [u8; OUTBOUND_FRAME_SIZE])
    requires
        cutoff_time_min < BASE240_LIMIT,
    ensures
        frame@ == spec_frame(
            spec_payload3(0x01, (discharge_current_ma / 10) as int, (cutoff_voltage_mv / 10) as int, cutoff_time_min as int),
        ),
{
    value_frame(
        CommandType::StartConstantCurrentDischarge,
        discharge_current_ma / 10,
        cutoff_voltage_mv / 10,
        cutoff_time_min,
    )
}

/// Changes the parameters of a running constant current discharge.
pub fn adjust_constant_current_discharge_command(
    discharge_current_ma: u16,
    cutoff_voltage_mv: u16,
    cutoff_time_min: u16,
) -> (frame: [u8; OUTBOUND_FRAME_SIZE])
    requires
        cutoff_time_min < BASE240_LIMIT,
    ensures
        frame@ == spec_frame(
            spec_payload3(0x07, (discharge_current_ma / 10) as int, (cutoff_voltage_mv / 10) as int, cutoff_time_min as int),
        ),
{
    value_frame(
        CommandType::AdjustConstantCurrentDischarge,
        discharge_current_ma / 10,
        cutoff_voltage_mv / 10,
        cutoff_time_min,
    )
}

/// Continues a stopped constant current discharge.
pub fn continue_constant_current_discharge_command(
    discharge_current_ma: u16,
    cutoff_voltage_mv: u16,
    cutoff_time_min: u16,
) -> (frame: [u8; OUTBOUND_FRAME_SIZE])
    requires
        cutoff_time_min < BASE240_LIMIT,
    ensures
        frame@ == spec_frame(
            spec_payload3(0x08, (discharge_current_ma / 10) as int, (cutoff_voltage_mv / 10) as int, cutoff_time_min as int),
        ),
{
    value_frame(
        CommandType::ContinueConstantCurrentDischarge,
        discharge_current_ma / 10,
        cutoff_voltage_mv / 10,
        cutoff_time_min,
    )
}

/// Starts a constant power discharge; the power travels in watts.
pub fn start_constant_power_discharge_command(
    discharge_power_w: u16,
    cutoff_voltage_mv: u16,
    cutoff_time_min: u16,
) -> (frame: [u8; OUTBOUND_FRAME_SIZE])
    requires
        discharge_power_w < BASE240_LIMIT,
        cutoff_time_min < BASE240_LIMIT,
    ensures
        frame@ == spec_frame(
            spec_payload3(0x11, discharge_power_w as int, (cutoff_voltage_mv / 10) as int, cutoff_time_min as int),
        ),
{
    value_frame(
        CommandType::StartConstantPowerDischarge,
        discharge_power_w,
        cutoff_voltage_mv / 10,
        cutoff_time_min,
    )
}

/// Changes the parameters of a running constant power discharge.
pub fn adjust_constant_power_discharge_command(
    discharge_power_w: u16,
    cutoff_voltage_mv: u16,
    cutoff_time_min: u16,
) -> (frame: [u8; OUTBOUND_FRAME_SIZE])
    requires
        discharge_power_w < BASE240_LIMIT,
        cutoff_time_min < BASE240_LIMIT,
    ensures
        frame@ == spec_frame(
            spec_payload3(0x17, discharge_power_w as int, (cutoff_voltage_mv / 10) as int, cutoff_time_min as int),
        ),
{
    value_frame(
        CommandType::AdjustConstantPowerDischarge,
        discharge_power_w,
        cutoff_voltage_mv / 10,
        cutoff_time_min,
    )
}

/// Continues a stopped constant power discharge.
pub fn continue_constant_power_discharge_command(
    discharge_power_w: u16,
    cutoff_voltage_mv: u16,
    cutoff_time_min: u16,
) -> (frame: [u8; OUTBOUND_FRAME_SIZE])
    requires
        discharge_power_w < BASE240_LIMIT,
        cutoff_time_min < BASE240_LIMIT,
    ensures
        frame@ == spec_frame(
            spec_payload3(0x18, discharge_power_w as int, (cutoff_voltage_mv / 10) as int, cutoff_time_min as int),
        ),
{
    value_frame(
        CommandType::ContinueConstantPowerDischarge,
        discharge_power_w,
        cutoff_voltage_mv / 10,
        cutoff_time_min,
    )
}

/// Starts a constant current, constant voltage charge; currents and
/// voltage travel in units of 10 mA and 10 mV.
pub fn start_constant_current_voltage_charge_command(
    charge_current_ma: u16,
    charge_voltage_mv: u16,
    cutoff_current_ma: u16,
) -> (frame: [u8; OUTBOUND_FRAME_SIZE])
    ensures
        frame@ == spec_frame(
            spec_payload3(0x21, (charge_current_ma / 10) as int, (charge_voltage_mv / 10) as int, (cutoff_current_ma / 10) as int),
        ),
{
    value_frame(
        CommandType::StartConstantCurrentVoltageCharge,
        charge_current_ma / 10,
        charge_voltage_mv / 10,
        cutoff_current_ma / 10,
    )
}

/// Changes the parameters of a running charge.
pub fn adjust_constant_current_voltage_charge_command(
    charge_current_ma: u16,
    charge_voltage_mv: u16,
    cutoff_current_ma: u16,
) -> (frame: [u8; OUTBOUND_FRAME_SIZE])
    ensures
        frame@ == spec_frame(
            spec_payload3(0x27, (charge_current_ma / 10) as int, (charge_voltage_mv / 10) as int, (cutoff_current_ma / 10) as int),
        ),
{
    value_frame(
        CommandType::AdjustConstantCurrentVoltageCharge,
        charge_current_ma / 10,
        charge_voltage_mv / 10,
        cutoff_current_ma / 10,
    )
}

/// Continues a stopped charge.
pub fn continue_constant_current_voltage_charge_command(
    charge_current_ma: u16,
    charge_voltage_mv: u16,
    cutoff_current_ma: u16,
) -> (frame: [u8; OUTBOUND_FRAME_SIZE])
    ensures
        frame@ == spec_frame(
            spec_payload3(0x28, (charge_current_ma / 10) as int, (charge_voltage_mv / 10) as int, (cutoff_current_ma / 10) as int),
        ),
{
    value_frame(
        CommandType::ContinueConstantCurrentVoltageCharge,
        charge_current_ma / 10,
        charge_voltage_mv / 10,
        cutoff_current_ma / 10,
    )
}

} // verus!
