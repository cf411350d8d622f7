use ebc_hub::cli::{
    parse_cli_line, program_command, CliCommand, CliDeviceAction, CliError, CliMode, ProgramStep,
};
use ebc_hub::ebc::device_command::DeviceCommand;
use ebc_hub::text::IntParseError;

#[test]
fn modes_are_read_in_both_cases() {
    assert_eq!(CliMode::from_str("DSC-CC"), Ok(CliMode::DscCc));
    assert_eq!(CliMode::from_str("dsc-cp"), Ok(CliMode::DscCp));
    assert_eq!(CliMode::from_str("CHG-CV"), Ok(CliMode::ChgCv));
    assert_eq!(CliMode::from_str("Dsc-Cc"), Err("Unknown mode: Dsc-Cc".to_string()));
}

#[test]
fn simple_lines() {
    assert!(matches!(parse_cli_line("quit"), Ok(CliCommand::Quit)));
    assert!(matches!(parse_cli_line("  exit "), Ok(CliCommand::Quit)));
    assert!(matches!(parse_cli_line("help"), Ok(CliCommand::Help)));
    assert!(matches!(parse_cli_line("   "), Ok(CliCommand::Empty)));
    assert!(matches!(parse_cli_line("battery-type list"), Ok(CliCommand::BatteryTypeList)));
    assert!(matches!(parse_cli_line("battery list"), Ok(CliCommand::BatteryList)));
}

#[test]
fn device_ids_are_written_back_in_decimal() {
    match parse_cli_line("connect 01") {
        Ok(CliCommand::Device { id, action: CliDeviceAction::Connect }) => assert_eq!(id, "1"),
        other => panic!("unexpected result: {other:?}"),
    }
    match parse_cli_line("disconnect +2") {
        Ok(CliCommand::Device { id, action: CliDeviceAction::Disconnect }) => assert_eq!(id, "2"),
        other => panic!("unexpected result: {other:?}"),
    }
    assert!(matches!(
        parse_cli_line("status x"),
        Err(CliError::InvalidNumber(IntParseError::InvalidDigit))
    ));
    assert!(matches!(parse_cli_line("stop 3"), Ok(CliCommand::Device { action: CliDeviceAction::Stop, .. })));
}

#[test]
fn program_lines() {
    match parse_cli_line("start 1 DSC-CC 20000 2500 0") {
        Ok(CliCommand::Device { id, action }) => {
            assert_eq!(id, "1");
            assert_eq!(
                action,
                CliDeviceAction::Program {
                    step: ProgramStep::Start,
                    mode: CliMode::DscCc,
                    value1: 20000,
                    value2: 2500,
                    value3: 0
                }
            );
        }
        other => panic!("unexpected result: {other:?}"),
    }
    match parse_cli_line("adjust 1 foo 1 2 3") {
        Err(e) => assert_eq!(e.to_string(), "Unknown mode: foo"),
        other => panic!("unexpected result: {other:?}"),
    }
    assert!(matches!(
        parse_cli_line("continue 1 CHG-CV 70000 2 3"),
        Err(CliError::InvalidNumber(IntParseError::PosOverflow))
    ));
    assert!(matches!(parse_cli_line("start 1 DSC-CC 1 2"), Ok(CliCommand::Unknown { .. })));
}

#[test]
fn program_commands() {
    assert_eq!(
        program_command(ProgramStep::Adjust, CliMode::DscCp, 50, 3000, 10),
        DeviceCommand::AdjustConstantPowerDischarge { discharge_power_w: 50, cutoff_voltage_mv: 3000, cutoff_time_min: 10 }
    );
    assert_eq!(
        program_command(ProgramStep::Continue, CliMode::ChgCv, 2000, 3650, 100),
        DeviceCommand::ContinueConstantCurrentVoltageCharge { charge_current_ma: 2000, charge_voltage_mv: 3650, cutoff_current_ma: 100 }
    );
    assert_eq!(
        program_command(ProgramStep::Start, CliMode::DscCc, 1, 2, 3),
        DeviceCommand::StartConstantCurrentDischarge { discharge_current_ma: 1, cutoff_voltage_mv: 2, cutoff_time_min: 3 }
    );
}

#[test]
fn battery_lines() {
    match parse_cli_line("battery-type add EVE LF314 LiFePO4 3200 314000 3650 2500") {
        Ok(CliCommand::BatteryTypeAdd { manufacturer, model, chemistry, voltage_mv, capacity_mah, charge_termination_voltage_mv, discharge_cutoff_voltage_mv }) => {
            assert_eq!((manufacturer.as_str(), model.as_str(), chemistry.as_str()), ("EVE", "LF314", "LiFePO4"));
            assert_eq!((voltage_mv, capacity_mah, charge_termination_voltage_mv, discharge_cutoff_voltage_mv), (3200, 314000, 3650, 2500));
        }
        other => panic!("unexpected result: {other:?}"),
    }
    // The short form of the help text lacks the two voltages.
    assert!(matches!(parse_cli_line("battery-type add EVE LF314 LiFePO4 3200 314000"), Ok(CliCommand::Unknown { .. })));
    match parse_cli_line("battery add eve-314ah-001 1") {
        Ok(CliCommand::BatteryAdd { battery_id, battery_type_id }) => {
            assert_eq!(battery_id, "eve-314ah-001");
            assert_eq!(battery_type_id, 1);
        }
        other => panic!("unexpected result: {other:?}"),
    }
    match parse_cli_line("battery-intake set eve-314ah-001 3291 180") {
        Ok(CliCommand::BatteryIntakeSet { battery_id, voltage_mv, resistance_uohm }) => {
            assert_eq!(battery_id, "eve-314ah-001");
            assert_eq!((voltage_mv, resistance_uohm), (3291, 180));
        }
        other => panic!("unexpected result: {other:?}"),
    }
    assert!(matches!(parse_cli_line("battery show b1"), Ok(CliCommand::BatteryShow { .. })));
    assert!(matches!(parse_cli_line("battery-intake show b1"), Ok(CliCommand::BatteryIntakeShow { .. })));
    assert!(matches!(parse_cli_line("battery add b1 x"), Err(CliError::InvalidNumber(IntParseError::InvalidDigit))));
    match parse_cli_line("frobnicate now") {
        Ok(CliCommand::Unknown { words }) => assert_eq!(words, vec!["frobnicate".to_string(), "now".to_string()]),
        other => panic!("unexpected result: {other:?}"),
    }
}
