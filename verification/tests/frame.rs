use ebc_hub::ebc::codec::xor_checksum;
use ebc_hub::ebc::constants::DeviceType;
use ebc_hub::ebc::device_capabilities::{CapabilityError, DeviceCapabilities};
use ebc_hub::ebc::frame::{
    buffer_is_decodable, first_firmware_report, process_buffer, InboundFrame, OutboundFrame,
};
use ebc_hub::ebc::report::DeviceMode;

fn caps() -> DeviceCapabilities {
    DeviceCapabilities::from(DeviceType::EbcA20)
}

/// A complete inbound frame around a 16-byte payload.
fn inbound(payload: [u8; 16]) -> Vec<u8> {
    let mut raw = vec![0xfa];
    raw.extend_from_slice(&payload);
    raw.push(xor_checksum(&payload));
    raw.push(0xf8);
    raw
}

fn dcc_payload(command: u8) -> [u8; 16] {
    // 1000 mA (100 units), 3500 mV, 120 mAh, 0, 1000 mA (100), 2800 mV (280), 60 min, EBC-A20.
    [command, 0, 100, 14, 140, 0, 120, 0, 0, 0, 100, 1, 40, 0, 60, 0x09]
}

#[test]
fn outbound_frames_encode_their_commands() {
    assert_eq!(OutboundFrame::connect().into_bytes(), [0xfa, 0x05, 0, 0, 0, 0, 0, 0, 0x05, 0xf8]);
    assert_eq!(OutboundFrame::disconnect().into_bytes()[1], 0x06);
    assert_eq!(OutboundFrame::stop().into_bytes()[1], 0x02);
    assert_eq!(OutboundFrame::timer_sync(600).into_bytes(), [0xfa, 0x0a, 0x02, 0x78, 0, 0, 0, 0, 0x70, 0xf8]);
    assert_eq!(OutboundFrame::calibrate_voltage_low(3300).into_bytes()[1..5], [0x04, 0x00, 0x0d, 0xb4]);
    assert_eq!(OutboundFrame::calibrate_voltage_high(3300).into_bytes()[2], 0x01);
    assert_eq!(OutboundFrame::calibrate_current_low(1000).into_bytes()[2], 0x02);
    assert_eq!(OutboundFrame::calibrate_current_high(1000).into_bytes()[2], 0x03);
    assert_eq!(OutboundFrame::calibrate_confirm().into_bytes(), [0xfa, 0x04, 0x04, 0, 0, 0, 0, 0, 0x00, 0xf8]);
}

#[test]
fn checked_frames_accept_parameters_within_limits() {
    let c = caps();
    let f = OutboundFrame::start_constant_current_discharge(1000, 3300, 60, &c).unwrap();
    assert_eq!(f.into_bytes(), [0xfa, 0x01, 0x00, 0x64, 0x01, 0x5a, 0x00, 0x3c, 0x02, 0xf8]);
    assert!(OutboundFrame::adjust_constant_current_discharge(10, 10, 0, &c).is_ok());
    assert!(OutboundFrame::continue_constant_current_discharge(20000, 30000, 999, &c).is_ok());
    let p = OutboundFrame::start_constant_power_discharge(50, 3000, 120, &c).unwrap();
    assert_eq!(p.into_bytes(), [0xfa, 0x11, 0x00, 0x32, 0x01, 0x3c, 0x00, 0x78, 0x66, 0xf8]);
    assert!(OutboundFrame::adjust_constant_power_discharge(1, 10, 0, &c).is_ok());
    assert!(OutboundFrame::continue_constant_power_discharge(85, 30000, 999, &c).is_ok());
    let g = OutboundFrame::start_constant_current_voltage_charge(2000, 3650, 100, &c).unwrap();
    assert_eq!(g.into_bytes()[1], 0x21);
    assert!(OutboundFrame::adjust_constant_current_voltage_charge(10, 10, 10, &c).is_ok());
    assert!(OutboundFrame::continue_constant_current_voltage_charge(5000, 30000, 5000, &c).is_ok());
}

#[test]
fn checked_frames_refuse_the_first_parameter_out_of_range() {
    let c = caps();
    match OutboundFrame::start_constant_current_discharge(9, 1, 5000, &c) {
        Err(e) => {
            assert_eq!(e, CapabilityError::CurrentOutOfRange { min_ma: 10, max_ma: 20000 });
            assert_eq!(e.to_string(), "Current must be between 10mA and 20000mA");
        }
        Ok(_) => panic!("current out of range was accepted"),
    }
    match OutboundFrame::adjust_constant_current_discharge(1000, 30001, 0, &c) {
        Err(e) => assert_eq!(e.to_string(), "Cutoff voltage must be between 10mV and 30000mV"),
        Ok(_) => panic!("voltage out of range was accepted"),
    }
    match OutboundFrame::continue_constant_current_discharge(1000, 3000, 1000, &c) {
        Err(e) => assert_eq!(e.to_string(), "Cutoff time must be between 0 and 999 minutes"),
        Ok(_) => panic!("time out of range was accepted"),
    }
    match OutboundFrame::start_constant_power_discharge(86, 3000, 10, &c) {
        Err(e) => assert_eq!(e.to_string(), "Watts must be between 1W and 85W"),
        Ok(_) => panic!("power out of range was accepted"),
    }
    match OutboundFrame::start_constant_current_voltage_charge(5001, 3650, 100, &c) {
        Err(e) => assert_eq!(e.to_string(), "Current must be between 10mA and 5000mA"),
        Ok(_) => panic!("charge current out of range was accepted"),
    }
    match OutboundFrame::adjust_constant_current_voltage_charge(2000, 5, 100, &c) {
        Err(e) => assert_eq!(e.to_string(), "Charge voltage must be between 10mV and 30000mV"),
        Ok(_) => panic!("charge voltage out of range was accepted"),
    }
    match OutboundFrame::continue_constant_current_voltage_charge(2000, 3650, 9, &c) {
        Err(e) => assert_eq!(e.to_string(), "Cutoff current must be between 10mA and 5000mA"),
        Ok(_) => panic!("cutoff current out of range was accepted"),
    }
}

#[test]
fn inbound_discharge_current_report_is_decoded() {
    let raw = inbound(dcc_payload(0x0a));
    match InboundFrame::try_from(&raw) {
        Ok(InboundFrame::DischargeConstantCurrent(r)) => {
            assert!(r.in_progress);
            assert_eq!(r.current_ma, 1000);
            assert_eq!(r.voltage_mv, 3500);
            assert_eq!(r.milli_ampere_hours, 120);
            assert_eq!(r.unknown, 0);
            assert_eq!(r.discharge_current_ma, 1000);
            assert_eq!(r.cutoff_voltage_mv, 2800);
            assert_eq!(r.cutoff_time_min, 60);
            assert_eq!(r.device_type, DeviceType::EbcA20);
        }
        other => panic!("unexpected result: {other:?}"),
    }
    match InboundFrame::try_from(&inbound(dcc_payload(0x14))) {
        Ok(InboundFrame::DischargeConstantCurrent(r)) => assert!(!r.in_progress),
        other => panic!("unexpected result: {other:?}"),
    }
}

#[test]
fn inbound_power_and_charge_reports_are_decoded() {
    let power = [0x0b, 0, 50, 14, 140, 0, 7, 0, 0, 0, 25, 12, 120, 0, 30, 0x09];
    match InboundFrame::try_from(&inbound(power)) {
        Ok(InboundFrame::DischargeConstantPower(r)) => {
            assert!(r.in_progress);
            assert_eq!(r.current_ma, 500);
            assert_eq!(r.discharge_power_w, 25);
            assert_eq!(r.cutoff_voltage_mv, 3000);
            assert_eq!(r.cutoff_time_min, 30);
        }
        other => panic!("unexpected result: {other:?}"),
    }
    let charge = [0x02, 0, 0, 15, 50, 0, 0, 0, 0, 0, 200, 15, 50, 0, 100, 0x06];
    match InboundFrame::try_from(&inbound(charge)) {
        Ok(InboundFrame::Charge(r)) => {
            assert!(!r.in_progress);
            assert_eq!(r.voltage_mv, 3650);
            assert_eq!(r.charge_current_ma, 2000);
            assert_eq!(r.charge_voltage_mv, 3650);
            assert_eq!(r.cutoff_current_ma, 100);
            assert_eq!(r.device_type, DeviceType::EbcA10H);
        }
        other => panic!("unexpected result: {other:?}"),
    }
}

#[test]
fn inbound_firmware_report_is_decoded() {
    // Version 302 is written as 3.0.2.
    let payload = [0x6f, 0, 0, 14, 140, 0, 0, 0, 0, 1, 62, 12, 108, 8, 167, 0x09];
    match InboundFrame::try_from(&inbound(payload)) {
        Ok(InboundFrame::Firmware(r)) => {
            assert_eq!(r.device_mode, DeviceMode::DischargeConstantPower);
            assert!(r.in_progress);
            assert_eq!(r.voltage_mv, 3500);
            assert_eq!(r.firmware_version, "3.0.2");
            assert_eq!(r.unknown1, 2988);
            assert_eq!(r.unknown2, 2087);
            assert_eq!(r.device_type, DeviceType::EbcA20);
        }
        other => panic!("unexpected result: {other:?}"),
    }
    let idle = [0x66, 0, 0, 0, 0, 0, 0, 0, 0, 2, 250, 0, 0, 0, 0, 0x05];
    match InboundFrame::try_from(&inbound(idle)) {
        Ok(InboundFrame::Firmware(r)) => {
            assert_eq!(r.device_mode, DeviceMode::ChargeConstantVoltage);
            assert!(!r.in_progress);
            assert_eq!(r.firmware_version, "7.3.0");
            assert_eq!(r.device_type, DeviceType::EbcA05);
        }
        other => panic!("unexpected result: {other:?}"),
    }
}

#[test]
fn inbound_checksum_errors_are_tolerated() {
    let mut raw = inbound(dcc_payload(0x0a));
    raw[17] ^= 0xff;
    assert!(InboundFrame::try_from(&raw).is_ok());
}

#[test]
fn inbound_errors_name_the_problem() {
    let short = vec![0xfa, 0x0a, 0xf8];
    assert_eq!(
        InboundFrame::try_from(&short).unwrap_err(),
        "Frame length mismatch: expected 19, got 3"
    );
    let mut bad_start = inbound(dcc_payload(0x0a));
    bad_start[0] = 0x0b;
    assert_eq!(
        InboundFrame::try_from(&bad_start).unwrap_err(),
        "Invalid start byte: expected 0xfa, got 0x0b"
    );
    let mut bad_end = inbound(dcc_payload(0x0a));
    bad_end[18] = 0xaf;
    assert_eq!(
        InboundFrame::try_from(&bad_end).unwrap_err(),
        "Invalid end byte: expected 0xf8, got 0xaf"
    );
    let unknown = inbound(dcc_payload(0x33));
    assert_eq!(InboundFrame::try_from(&unknown).unwrap_err(), "Unknown command byte: 0x33");
}

#[test]
fn decodability_flags_unreadable_fields() {
    assert!(InboundFrame::is_decodable(&inbound(dcc_payload(0x0a))));
    let mut unknown_device = dcc_payload(0x0a);
    unknown_device[15] = 0x42;
    assert!(!InboundFrame::is_decodable(&inbound(unknown_device)));
    let mut huge_current = dcc_payload(0x0a);
    huge_current[1] = 239;
    assert!(!InboundFrame::is_decodable(&inbound(huge_current)));
    assert!(InboundFrame::is_decodable(&[0x00, 0x01]));
}

#[test]
fn process_buffer_cuts_frames_and_keeps_partial_ones() {
    let frame = inbound(dcc_payload(0x0a));
    let mut buf = vec![0x11, 0x22];
    buf.extend_from_slice(&frame);
    buf.extend_from_slice(&[0xfa, 0x0a, 0x00]);
    let frames = process_buffer(&mut buf);
    assert_eq!(frames.len(), 1);
    assert_eq!(frames[0].1, frame);
    assert_eq!(buf, vec![0xfa, 0x0a, 0x00]);
}

#[test]
fn process_buffer_drops_short_frames_and_junk() {
    let mut buf = vec![0x01, 0xfa, 0x02, 0xf8, 0x03];
    let frames = process_buffer(&mut buf);
    assert!(frames.is_empty());
    assert!(buf.is_empty());
    let mut empty: Vec<u8> = Vec::new();
    assert!(process_buffer(&mut empty).is_empty());
    assert!(empty.is_empty());
}

#[test]
fn stream_in_chunks_yields_the_same_frames() {
    let mut stream = vec![0x55];
    stream.extend_from_slice(&inbound(dcc_payload(0x0a)));
    stream.extend_from_slice(&inbound(dcc_payload(0x14)));
    stream.push(0xfa);
    for cut in 0..stream.len() {
        let mut whole = stream.clone();
        let all = process_buffer(&mut whole);
        let mut buf = stream[..cut].to_vec();
        let mut got: Vec<Vec<u8>> = process_buffer(&mut buf).into_iter().map(|(_, raw)| raw).collect();
        buf.extend_from_slice(&stream[cut..]);
        got.extend(process_buffer(&mut buf).into_iter().map(|(_, raw)| raw));
        let expected: Vec<Vec<u8>> = all.into_iter().map(|(_, raw)| raw).collect();
        assert_eq!(got, expected);
        assert_eq!(buf, whole);
    }
}

#[test]
fn buffer_decodability_checks_every_frame() {
    let mut buf = inbound(dcc_payload(0x0a));
    assert!(buffer_is_decodable(&buf));
    let mut bad = dcc_payload(0x0a);
    bad[15] = 0x01;
    buf.extend_from_slice(&inbound(bad));
    assert!(!buffer_is_decodable(&buf));
}

#[test]
fn first_firmware_report_skips_other_reports() {
    let dcc = InboundFrame::try_from(&inbound(dcc_payload(0x0a))).unwrap();
    let fw_payload = [0x64, 0, 0, 0, 0, 0, 0, 0, 0, 1, 62, 0, 0, 0, 0, 0x09];
    let fw = InboundFrame::try_from(&inbound(fw_payload)).unwrap();
    assert!(first_firmware_report(&vec![dcc.clone()]).is_none());
    let found = first_firmware_report(&vec![dcc, fw]).unwrap();
    assert_eq!(found.firmware_version, "3.0.2");
    assert_eq!(found.device_mode, DeviceMode::DischargeConstantCurrent);
}
