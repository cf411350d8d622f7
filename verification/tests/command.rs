use ebc_hub::ebc::command::{
    adjust_constant_current_discharge_command, adjust_constant_current_voltage_charge_command,
    adjust_constant_power_discharge_command, calibration_command, connect_command,
    continue_constant_current_discharge_command, continue_constant_current_voltage_charge_command,
    continue_constant_power_discharge_command, disconnect_command,
    start_constant_current_discharge_command, start_constant_current_voltage_charge_command,
    start_constant_power_discharge_command, stop_command, timer_sync_command,
};
use ebc_hub::ebc::codec::xor_checksum;

fn check_shape(frame: &[u8; 10]) {
    assert_eq!(frame[0], 0xfa);
    assert_eq!(frame[9], 0xf8);
    assert_eq!(xor_checksum(&frame[1..9]), 0);
    for b in &frame[1..8] {
        assert!(*b != 0xfa && *b != 0xf8);
    }
}

#[test]
fn bare_commands_are_exact() {
    assert_eq!(connect_command(), [0xfa, 0x05, 0, 0, 0, 0, 0, 0, 0x05, 0xf8]);
    assert_eq!(disconnect_command(), [0xfa, 0x06, 0, 0, 0, 0, 0, 0, 0x06, 0xf8]);
    assert_eq!(stop_command(), [0xfa, 0x02, 0, 0, 0, 0, 0, 0, 0x02, 0xf8]);
}

#[test]
fn constant_current_discharge_commands_scale_by_ten() {
    let start = start_constant_current_discharge_command(1000, 3300, 60);
    assert_eq!(start, [0xfa, 0x01, 0x00, 0x64, 0x01, 0x5a, 0x00, 0x3c, 0x02, 0xf8]);
    let adjust = adjust_constant_current_discharge_command(1000, 3300, 60);
    assert_eq!(adjust, [0xfa, 0x07, 0x00, 0x64, 0x01, 0x5a, 0x00, 0x3c, 0x04, 0xf8]);
    let cont = continue_constant_current_discharge_command(1000, 3300, 60);
    assert_eq!(cont, [0xfa, 0x08, 0x00, 0x64, 0x01, 0x5a, 0x00, 0x3c, 0x0b, 0xf8]);
    for f in [start, adjust, cont] {
        check_shape(&f);
    }
    // 1009 mA and 3309 mV are sent as 100 and 330 units of ten.
    assert_eq!(start_constant_current_discharge_command(1009, 3309, 60), start);
}

#[test]
fn constant_power_discharge_commands_send_watts() {
    let start = start_constant_power_discharge_command(50, 3000, 120);
    assert_eq!(start, [0xfa, 0x11, 0x00, 0x32, 0x01, 0x3c, 0x00, 0x78, 0x66, 0xf8]);
    check_shape(&start);
    check_shape(&adjust_constant_power_discharge_command(50, 3000, 120));
    check_shape(&continue_constant_power_discharge_command(50, 3000, 120));
    assert_eq!(adjust_constant_power_discharge_command(50, 3000, 120)[1], 0x17);
    assert_eq!(continue_constant_power_discharge_command(50, 3000, 120)[1], 0x18);
}

#[test]
fn charge_commands_scale_all_values() {
    let start = start_constant_current_voltage_charge_command(2000, 36500, 100);
    assert_eq!(start, [0xfa, 0x21, 0x00, 0xc8, 0x0f, 0x32, 0x00, 0x0a, 0xde, 0xf8]);
    check_shape(&start);
    assert_eq!(adjust_constant_current_voltage_charge_command(2000, 36500, 100)[1], 0x27);
    assert_eq!(continue_constant_current_voltage_charge_command(2000, 36500, 100)[1], 0x28);
}

#[test]
fn timer_and_calibration_commands() {
    assert_eq!(timer_sync_command(600), [0xfa, 0x0a, 0x02, 0x78, 0, 0, 0, 0, 0x70, 0xf8]);
    assert_eq!(calibration_command(0x01, 3300), [0xfa, 0x04, 0x01, 0x0d, 0xb4, 0, 0, 0, 0xbc, 0xf8]);
    assert_eq!(calibration_command(0x04, 0), [0xfa, 0x04, 0x04, 0, 0, 0, 0, 0, 0x00, 0xf8]);
}

#[test]
fn largest_encodable_values_stay_below_markers() {
    let f = start_constant_power_discharge_command(57839, 65535, 57839);
    check_shape(&f);
    assert_eq!(&f[2..8], &[240, 239, 27, 73, 240, 239]);
}
