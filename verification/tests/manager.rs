use ebc_hub::config::EbcConfig;
use ebc_hub::ebc::codec::xor_checksum;
use ebc_hub::ebc::constants::DeviceType;
use ebc_hub::ebc::device_command::DeviceCommand;
use ebc_hub::ebc::frame::InboundFrame;
use ebc_hub::ebc::report::{DeviceMode, FirmwareReport};
use ebc_hub::ebc_manager::{EbcManagerState, ManagerAction, ManagerError, ManagerRequest};
use ebc_hub::ebc_runner::RunnerState;

fn report() -> FirmwareReport {
    FirmwareReport {
        device_mode: DeviceMode::DischargeConstantCurrent,
        in_progress: false,
        current_ma: 0,
        voltage_mv: 3300,
        milli_ampere_hours: 0,
        unknown: 0,
        firmware_version: "3.0.2".to_string(),
        unknown1: 2988,
        unknown2: 2087,
        device_type: DeviceType::EbcA20,
    }
}

fn manager() -> EbcManagerState {
    EbcManagerState::new(vec![
        ("1".to_string(), EbcConfig { port: "/dev/ttyUSB0".to_string() }),
        ("2".to_string(), EbcConfig { port: "/dev/ttyUSB1".to_string() }),
    ])
}

fn id(s: &str) -> String {
    s.to_string()
}

#[test]
fn connect_opens_the_configured_port() {
    let mut m = manager();
    match m.decide(&ManagerRequest::Connect { id: id("2") }) {
        ManagerAction::OpenDevice { port } => assert_eq!(port, "/dev/ttyUSB1"),
        other => panic!("unexpected action: {other:?}"),
    }
    match m.decide(&ManagerRequest::Connect { id: id("9") }) {
        ManagerAction::Refuse(e) => assert_eq!(e.to_string(), "This config doesn't exist: 9"),
        other => panic!("unexpected action: {other:?}"),
    }
}

#[test]
fn connected_devices_answer_status_and_refuse_a_second_connect() {
    let mut m = manager();
    let info = m.register(id("1"), report());
    assert_eq!(info.device_type, DeviceType::EbcA20);
    assert_eq!(info.fw_version, "3.0.2");
    assert_eq!(info.capabilities.max_discharge_current_ma(), 20000);
    match m.decide(&ManagerRequest::Connect { id: id("1") }) {
        ManagerAction::Refuse(e) => assert_eq!(e.to_string(), "The given id is already connected!"),
        other => panic!("unexpected action: {other:?}"),
    }
    match m.decide(&ManagerRequest::Status { id: id("1") }) {
        ManagerAction::Status(event) => match event.frame {
            InboundFrame::Firmware(r) => assert_eq!(r.voltage_mv, 3300),
            other => panic!("unexpected frame: {other:?}"),
        },
        other => panic!("unexpected action: {other:?}"),
    }
    assert!(matches!(m.decide(&ManagerRequest::SubReports { id: id("1") }), ManagerAction::Subscribe));
}

#[test]
fn status_follows_the_latest_report() {
    let mut m = manager();
    m.register(id("1"), report());
    let payload = [0x0a, 0, 100, 14, 140, 0, 0, 0, 0, 0, 100, 1, 40, 0, 60, 0x09];
    let mut raw = vec![0xfa];
    raw.extend_from_slice(&payload);
    raw.push(xor_checksum(&payload));
    raw.push(0xf8);
    let frame = InboundFrame::try_from(&raw).unwrap();
    m.record_frame(&id("1"), frame);
    match m.decide(&ManagerRequest::Status { id: id("1") }) {
        ManagerAction::Status(event) => assert!(matches!(event.frame, InboundFrame::DischargeConstantCurrent(_))),
        other => panic!("unexpected action: {other:?}"),
    }
}

#[test]
fn commands_go_to_connected_devices_only() {
    let mut m = manager();
    let start = DeviceCommand::StartConstantCurrentDischarge {
        discharge_current_ma: 1000,
        cutoff_voltage_mv: 3300,
        cutoff_time_min: 60,
    };
    match m.decide(&ManagerRequest::Command { id: id("1"), command: start }) {
        ManagerAction::Refuse(e) => assert_eq!(e.to_string(), "The given id is not connected!"),
        other => panic!("unexpected action: {other:?}"),
    }
    m.register(id("1"), report());
    match m.decide(&ManagerRequest::Command { id: id("1"), command: start }) {
        ManagerAction::Send(bytes) => assert_eq!(bytes, [0xfa, 0x01, 0x00, 0x64, 0x01, 0x5a, 0x00, 0x3c, 0x02, 0xf8]),
        other => panic!("unexpected action: {other:?}"),
    }
    let too_much = DeviceCommand::StartConstantPowerDischarge {
        discharge_power_w: 100,
        cutoff_voltage_mv: 3000,
        cutoff_time_min: 10,
    };
    match m.decide(&ManagerRequest::Command { id: id("1"), command: too_much }) {
        ManagerAction::Refuse(ManagerError::Rejected(e)) => assert_eq!(e.to_string(), "Watts must be between 1W and 85W"),
        other => panic!("unexpected action: {other:?}"),
    }
    match m.decide(&ManagerRequest::Command { id: id("1"), command: DeviceCommand::Stop }) {
        ManagerAction::Send(bytes) => assert_eq!(bytes[1], 0x02),
        other => panic!("unexpected action: {other:?}"),
    }
}

#[test]
fn disconnect_removes_the_device() {
    let mut m = manager();
    m.register(id("1"), report());
    m.register(id("2"), report());
    assert!(matches!(m.decide(&ManagerRequest::Disconnect { id: id("1") }), ManagerAction::CloseDevice));
    assert!(matches!(
        m.decide(&ManagerRequest::Disconnect { id: id("1") }),
        ManagerAction::Refuse(ManagerError::NotConnected)
    ));
    assert!(matches!(
        m.decide(&ManagerRequest::Status { id: id("1") }),
        ManagerAction::Refuse(ManagerError::NotConnected)
    ));
    assert!(matches!(m.decide(&ManagerRequest::Status { id: id("2") }), ManagerAction::Status(_)));
    match m.decide(&ManagerRequest::Connect { id: id("1") }) {
        ManagerAction::OpenDevice { port } => assert_eq!(port, "/dev/ttyUSB0"),
        other => panic!("unexpected action: {other:?}"),
    }
}

#[test]
fn runner_checks_commands_and_tracks_reports() {
    let mut r = RunnerState::new(report());
    assert!(matches!(r.status().frame, InboundFrame::Firmware(_)));
    assert_eq!(r.command_bytes(DeviceCommand::Stop).unwrap(), [0xfa, 0x02, 0, 0, 0, 0, 0, 0, 0x02, 0xf8]);
    let charge = DeviceCommand::StartConstantCurrentVoltageCharge {
        charge_current_ma: 6000,
        charge_voltage_mv: 3650,
        cutoff_current_ma: 100,
    };
    assert_eq!(r.command_bytes(charge).unwrap_err().to_string(), "Current must be between 10mA and 5000mA");
    let payload = [0x02, 0, 0, 15, 50, 0, 0, 0, 0, 0, 200, 15, 50, 0, 100, 0x09];
    let mut raw = vec![0xfa];
    raw.extend_from_slice(&payload);
    raw.push(xor_checksum(&payload));
    raw.push(0xf8);
    r.record_frame(InboundFrame::try_from(&raw).unwrap());
    assert!(matches!(r.status().frame, InboundFrame::Charge(_)));
}
