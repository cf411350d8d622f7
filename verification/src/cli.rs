use vstd::prelude::*;

use crate::ebc::device_command::{spec_device_command_byte, spec_device_command_values, DeviceCommand};
use crate::text::{
    decimal_string, lemma_parse_int_range, parse_i64, parse_u16, parse_usize, spec_decimal, spec_int_parse_error_message,
    spec_parse_i64, spec_parse_u16, spec_parse_usize, spec_words, split_whitespace, str_equals,
    IntParseError,
};

verus! {

/// The program that a CLI command names.
#[derive(Debug, Clone, Copy, PartialEq, Eq, Structural)]
pub enum CliMode {
    /// Constant current discharge: current in mA, cutoff voltage in mV,
    /// cutoff time in minutes.
    DscCc,
    /// Constant power discharge: power in W, cutoff voltage in mV, cutoff
    /// time in minutes.
    DscCp,
    /// Constant current and voltage charge: current in mA, voltage in mV,
    /// cutoff current in mA.
    ChgCv,
}

/// Whether a program is started, changed while it runs, or continued.
#[derive(Debug, Clone, Copy, PartialEq, Eq, Structural)]
pub enum ProgramStep {
    Start,
    Adjust,
    Continue,
}

/// What the CLI asks of a device.
#[derive(Debug, Clone, Copy, PartialEq, Eq, Structural)]
pub enum CliDeviceAction {
    Connect,
    Status,
    Stop,
    Disconnect,
    Program { step: ProgramStep, mode: CliMode, value1: u16, value2: u16, value3: u16 },
}

/// One line of CLI input, read.
#[derive(Debug)]
pub enum CliCommand {
    Quit,
    Help,
    Empty,
    Device { id: String, action: CliDeviceAction },
    BatteryTypeList,
    BatteryTypeAdd {
        manufacturer: String,
        model: String,
        chemistry: String,
        voltage_mv: i64,
        capacity_mah: i64,
        charge_termination_voltage_mv: i64,
        discharge_cutoff_voltage_mv: i64,
    },
    BatteryAdd { battery_id: String, battery_type_id: i64 },
    BatteryList,
    BatteryShow { battery_id: String },
    BatteryIntakeShow { battery_id: String },
    BatteryIntakeSet { battery_id: String, voltage_mv: i64, resistance_uohm: i64 },
    Unknown { words: Vec<String> },
}

/// Why a CLI line cannot be carried out; it ends the CLI.
#[derive(Debug)]
pub enum CliError {
    InvalidNumber(IntParseError),
    UnknownMode { mode: String },
}

/// The plain values of a CLI command.
pub enum CliCommandView {
    Quit,
    Help,
    Empty,
    Device { id: Seq<char>, action: CliDeviceAction },
    BatteryTypeList,
    BatteryTypeAdd {
        manufacturer: Seq<char>,
        model: Seq<char>,
        chemistry: Seq<char>,
        voltage_mv: int,
        capacity_mah: int,
        charge_termination_voltage_mv: int,
        discharge_cutoff_voltage_mv: int,
    },
    BatteryAdd { battery_id: Seq<char>, battery_type_id: int },
    BatteryList,
    BatteryShow { battery_id: Seq<char> },
    BatteryIntakeShow { battery_id: Seq<char> },
    BatteryIntakeSet { battery_id: Seq<char>, voltage_mv: int, resistance_uohm: int },
    Unknown { words: Seq<Seq<char>> },
}

/// The plain values of a CLI error.
pub enum CliErrorView {
    InvalidNumber(IntParseError),
    UnknownMode(Seq<char>),
}

impl View for CliCommand {
    type V = CliCommandView;

    open spec fn view(&self) -> CliCommandView {
        match self {
            CliCommand::Quit => CliCommandView::Quit,
            CliCommand::Help => CliCommandView::Help,
            CliCommand::Empty => CliCommandView::Empty,
            CliCommand::Device { id, action } => CliCommandView::Device { id: id@, action: *action },
            CliCommand::BatteryTypeList => CliCommandView::BatteryTypeList,
            CliCommand::BatteryTypeAdd {
                manufacturer,
                model,
                chemistry,
                voltage_mv,
                capacity_mah,
                charge_termination_voltage_mv,
                discharge_cutoff_voltage_mv,
            } => CliCommandView::BatteryTypeAdd {
                manufacturer: manufacturer@,
                model: model@,
                chemistry: chemistry@,
                voltage_mv: *voltage_mv as int,
                capacity_mah: *capacity_mah as int,
                charge_termination_voltage_mv: *charge_termination_voltage_mv as int,
                discharge_cutoff_voltage_mv: *discharge_cutoff_voltage_mv as int,
            },
            CliCommand::BatteryAdd { battery_id, battery_type_id } => CliCommandView::BatteryAdd {
                battery_id: battery_id@,
                battery_type_id: *battery_type_id as int,
            },
            CliCommand::BatteryList => CliCommandView::BatteryList,
            CliCommand::BatteryShow { battery_id } => CliCommandView::BatteryShow {
                battery_id: battery_id@,
            },
            CliCommand::BatteryIntakeShow { battery_id } => CliCommandView::BatteryIntakeShow {
                battery_id: battery_id@,
            },
            CliCommand::BatteryIntakeSet { battery_id, voltage_mv, resistance_uohm } =>
                CliCommandView::BatteryIntakeSet {
                battery_id: battery_id@,
                voltage_mv: *voltage_mv as int,
                resistance_uohm: *resistance_uohm as int,
            },
            CliCommand::Unknown { words } => CliCommandView::Unknown {
                words: words@.map_values(|w: String| w@),
            },
        }
    }
}

impl View for CliError {
    type V = CliErrorView;

    open spec fn view(&self) -> CliErrorView {
        match self {
            CliError::InvalidNumber(e) => CliErrorView::InvalidNumber(*e),
            CliError::UnknownMode { mode } => CliErrorView::UnknownMode(mode@),
        }
    }
}

/// The program that a mode word names.
pub open spec fn spec_cli_mode(s: Seq<char>) -> Option<CliMode> {
    if s == "DSC-CC"@ || s == "dsc-cc"@ {
        Some(CliMode::DscCc)
    } else if s == "DSC-CP"@ || s == "dsc-cp"@ {
        Some(CliMode::DscCp)
    } else if s == "CHG-CV"@ || s == "chg-cv"@ {
        Some(CliMode::ChgCv)
    } else {
        None
    }
}

/// The program step that a command word names.
pub open spec fn spec_program_step(w: Seq<char>) -> Option<ProgramStep> {
    if w == "start"@ {
        Some(ProgramStep::Start)
    } else if w == "adjust"@ {
        Some(ProgramStep::Adjust)
    } else if w == "continue"@ {
        Some(ProgramStep::Continue)
    } else {
        None
    }
}

/// The device action without parameters that a command word names.
pub open spec fn spec_simple_action(w: Seq<char>) -> Option<CliDeviceAction> {
    if w == "connect"@ {
        Some(CliDeviceAction::Connect)
    } else if w == "status"@ {
        Some(CliDeviceAction::Status)
    } else if w == "stop"@ {
        Some(CliDeviceAction::Stop)
    } else if w == "disconnect"@ {
        Some(CliDeviceAction::Disconnect)
    } else {
        None
    }
}

/// A device id word read as a number and written back in decimal.
pub open spec fn spec_device_id(w: Seq<char>) -> Result<Seq<char>, IntParseError> {
    match spec_parse_usize(w) {
        Ok(n) => Ok(spec_decimal(n as nat)),
        Err(e) => Err(e),
    }
}

/// A program line: id, mode and three values, read in this order.
pub open spec fn spec_program(words: Seq<Seq<char>>, step: ProgramStep) -> Result<CliCommandView, CliErrorView> {
    match spec_device_id(words[1]) {
        Err(e) => Err(CliErrorView::InvalidNumber(e)),
        Ok(id) => match spec_cli_mode(words[2]) {
            None => Err(CliErrorView::UnknownMode(words[2])),
            Some(mode) => match spec_parse_u16(words[3]) {
                Err(e) => Err(CliErrorView::InvalidNumber(e)),
                Ok(a) => match spec_parse_u16(words[4]) {
                    Err(e) => Err(CliErrorView::InvalidNumber(e)),
                    Ok(b) => match spec_parse_u16(words[5]) {
                        Err(e) => Err(CliErrorView::InvalidNumber(e)),
                        Ok(c) => Ok(
                            CliCommandView::Device {
                                id,
                                action: CliDeviceAction::Program {
                                    step,
                                    mode,
                                    value1: a as u16,
                                    value2: b as u16,
                                    value3: c as u16,
                                },
                            },
                        ),
                    },
                },
            },
        },
    }
}

/// A battery type line: four numbers after the texts, read in this order.
pub open spec fn spec_battery_type_add(words: Seq<Seq<char>>) -> Result<CliCommandView, CliErrorView> {
    match spec_parse_i64(words[5]) {
        Err(e) => Err(CliErrorView::InvalidNumber(e)),
        Ok(v) => match spec_parse_i64(words[6]) {
            Err(e) => Err(CliErrorView::InvalidNumber(e)),
            Ok(c) => match spec_parse_i64(words[7]) {
                Err(e) => Err(CliErrorView::InvalidNumber(e)),
                Ok(t) => match spec_parse_i64(words[8]) {
                    Err(e) => Err(CliErrorView::InvalidNumber(e)),
                    Ok(d) => Ok(
                        CliCommandView::BatteryTypeAdd {
                            manufacturer: words[2],
                            model: words[3],
                            chemistry: words[4],
                            voltage_mv: v,
                            capacity_mah: c,
                            charge_termination_voltage_mv: t,
                            discharge_cutoff_voltage_mv: d,
                        },
                    ),
                },
            },
        },
    }
}

/// What a line of CLI input asks for, given its words.
pub open spec fn spec_parse_cli(words: Seq<Seq<char>>) -> Result<CliCommandView, CliErrorView> {
    let n = words.len();
    if n == 0 {
        Ok(CliCommandView::Empty)
    } else if n == 1 && (words[0] == "quit"@ || words[0] == "exit"@) {
        Ok(CliCommandView::Quit)
    } else if n == 1 && words[0] == "help"@ {
        Ok(CliCommandView::Help)
    } else if n == 2 && spec_simple_action(words[0]) is Some {
        match spec_device_id(words[1]) {
            Err(e) => Err(CliErrorView::InvalidNumber(e)),
            Ok(id) => Ok(CliCommandView::Device { id, action: spec_simple_action(words[0]).unwrap() }),
        }
    } else if n == 6 && spec_program_step(words[0]) is Some {
        spec_program(words, spec_program_step(words[0]).unwrap())
    } else if n == 2 && words[0] == "battery-type"@ && words[1] == "list"@ {
        Ok(CliCommandView::BatteryTypeList)
    } else if n == 9 && words[0] == "battery-type"@ && words[1] == "add"@ {
        spec_battery_type_add(words)
    } else if n == 4 && words[0] == "battery"@ && words[1] == "add"@ {
        match spec_parse_i64(words[3]) {
            Err(e) => Err(CliErrorView::InvalidNumber(e)),
            Ok(t) => Ok(CliCommandView::BatteryAdd { battery_id: words[2], battery_type_id: t }),
        }
    } else if n == 2 && words[0] == "battery"@ && words[1] == "list"@ {
        Ok(CliCommandView::BatteryList)
    } else if n == 3 && words[0] == "battery"@ && words[1] == "show"@ {
        Ok(CliCommandView::BatteryShow { battery_id: words[2] })
    } else if n == 3 && words[0] == "battery-intake"@ && words[1] == "show"@ {
        Ok(CliCommandView::BatteryIntakeShow { battery_id: words[2] })
    } else if n == 5 && words[0] == "battery-intake"@ && words[1] == "set"@ {
        match spec_parse_i64(words[3]) {
            Err(e) => Err(CliErrorView::InvalidNumber(e)),
            Ok(v) => match spec_parse_i64(words[4]) {
                Err(e) => Err(CliErrorView::InvalidNumber(e)),
                Ok(r) => Ok(
                    CliCommandView::BatteryIntakeSet { battery_id: words[2], voltage_mv: v, resistance_uohm: r },
                ),
            },
        }
    } else {
        Ok(CliCommandView::Unknown { words })
    }
}

/// The view of a parse result.
pub open spec fn spec_cli_result(r: Result<CliCommand, CliError>) -> Result<CliCommandView, CliErrorView> {
    match r {
        Ok(c) => Ok(c@),
        Err(e) => Err(e@),
    }
}

impl CliMode {
    /// Reads a mode word; both upper and lower case are accepted.
    pub fn from_str(s: &str) -> (r: Result<CliMode, String>)
        ensures
            match r {
                Ok(m) => spec_cli_mode(s@) == Some(m),
                Err(e) => spec_cli_mode(s@) is None && e@ == "Unknown mode: "@ + s@,
            },
    {
        if str_equals(s, "DSC-CC") || str_equals(s, "dsc-cc") {
            Ok(Self::DscCc)
        } else if str_equals(s, "DSC-CP") || str_equals(s, "dsc-cp") {
            Ok(Self::DscCp)
        } else if str_equals(s, "CHG-CV") || str_equals(s, "chg-cv") {
            Ok(Self::ChgCv)
        } else {
            let mut e = String::from_str("Unknown mode: ");
            e.append(s);
            Err(e)
        }
    }
}

impl CliError {
    /// The message that the CLI ends with.
    pub fn to_string(&self) -> (s: String)
        ensures
            s@ == match self@ {
                CliErrorView::InvalidNumber(e) => spec_int_parse_error_message(e),
                CliErrorView::UnknownMode(m) => "Unknown mode: "@ + m,
            },
    {
        match self {
            CliError::InvalidNumber(e) => e.to_string(),
            CliError::UnknownMode { mode } => {
                let mut s = String::from_str("Unknown mode: ");
                s.append(mode.as_str());
                s
            },
        }
    }
}

/// The device command that a program line asks for; the three values mean
/// what the mode says.
pub open spec fn spec_program_command(step: ProgramStep, mode: CliMode, a: u16, b: u16, c: u16) -> DeviceCommand {
    match (step, mode) {
        (ProgramStep::Start, CliMode::DscCc) => DeviceCommand::StartConstantCurrentDischarge {
            discharge_current_ma: a,
            cutoff_voltage_mv: b,
            cutoff_time_min: c,
        },
        (ProgramStep::Adjust, CliMode::DscCc) => DeviceCommand::AdjustConstantCurrentDischarge {
            discharge_current_ma: a,
            cutoff_voltage_mv: b,
            cutoff_time_min: c,
        },
        (ProgramStep::Continue, CliMode::DscCc) => DeviceCommand::ContinueConstantCurrentDischarge {
            discharge_current_ma: a,
            cutoff_voltage_mv: b,
            cutoff_time_min: c,
        },
        (ProgramStep::Start, CliMode::DscCp) => DeviceCommand::StartConstantPowerDischarge {
            discharge_power_w: a,
            cutoff_voltage_mv: b,
            cutoff_time_min: c,
        },
        (ProgramStep::Adjust, CliMode::DscCp) => DeviceCommand::AdjustConstantPowerDischarge {
            discharge_power_w: a,
            cutoff_voltage_mv: b,
            cutoff_time_min: c,
        },
        (ProgramStep::Continue, CliMode::DscCp) => DeviceCommand::ContinueConstantPowerDischarge {
            discharge_power_w: a,
            cutoff_voltage_mv: b,
            cutoff_time_min: c,
        },
        (ProgramStep::Start, CliMode::ChgCv) => DeviceCommand::StartConstantCurrentVoltageCharge {
            charge_current_ma: a,
            charge_voltage_mv: b,
            cutoff_current_ma: c,
        },
        (ProgramStep::Adjust, CliMode::ChgCv) => DeviceCommand::AdjustConstantCurrentVoltageCharge {
            charge_current_ma: a,
            charge_voltage_mv: b,
            cutoff_current_ma: c,
        },
        (ProgramStep::Continue, CliMode::ChgCv) => DeviceCommand::ContinueConstantCurrentVoltageCharge {
            charge_current_ma: a,
            charge_voltage_mv: b,
            cutoff_current_ma: c,
        },
    }
}

/// The device command of a program line.
pub fn program_command(step: ProgramStep, mode: CliMode, value1: u16, value2: u16, value3: u16) -> (c: DeviceCommand)
    ensures
        c == spec_program_command(step, mode, value1, value2, value3),
{
    match (step, mode) {
        (ProgramStep::Start, CliMode::DscCc) => DeviceCommand::StartConstantCurrentDischarge {
            discharge_current_ma: value1,
            cutoff_voltage_mv: value2,
            cutoff_time_min: value3,
        },
        (ProgramStep::Adjust, CliMode::DscCc) => DeviceCommand::AdjustConstantCurrentDischarge {
            discharge_current_ma: value1,
            cutoff_voltage_mv: value2,
            cutoff_time_min: value3,
        },
        (ProgramStep::Continue, CliMode::DscCc) => DeviceCommand::ContinueConstantCurrentDischarge {
            discharge_current_ma: value1,
            cutoff_voltage_mv: value2,
            cutoff_time_min: value3,
        },
        (ProgramStep::Start, CliMode::DscCp) => DeviceCommand::StartConstantPowerDischarge {
            discharge_power_w: value1,
            cutoff_voltage_mv: value2,
            cutoff_time_min: value3,
        },
        (ProgramStep::Adjust, CliMode::DscCp) => DeviceCommand::AdjustConstantPowerDischarge {
            discharge_power_w: value1,
            cutoff_voltage_mv: value2,
            cutoff_time_min: value3,
        },
        (ProgramStep::Continue, CliMode::DscCp) => DeviceCommand::ContinueConstantPowerDischarge {
            discharge_power_w: value1,
            cutoff_voltage_mv: value2,
            cutoff_time_min: value3,
        },
        (ProgramStep::Start, CliMode::ChgCv) => DeviceCommand::StartConstantCurrentVoltageCharge {
            charge_current_ma: value1,
            charge_voltage_mv: value2,
            cutoff_current_ma: value3,
        },
        (ProgramStep::Adjust, CliMode::ChgCv) => DeviceCommand::AdjustConstantCurrentVoltageCharge {
            charge_current_ma: value1,
            charge_voltage_mv: value2,
            cutoff_current_ma: value3,
        },
        (ProgramStep::Continue, CliMode::ChgCv) => DeviceCommand::ContinueConstantCurrentVoltageCharge {
            charge_current_ma: value1,
            charge_voltage_mv: value2,
            cutoff_current_ma: value3,
        },
    }
}

fn device_id(w: &String) -> (r: Result<String, IntParseError>)
    ensures
        match r {
            Ok(id) => spec_device_id(w@) == Ok::<Seq<char>, IntParseError>(id@),
            Err(e) => spec_device_id(w@) == Err::<Seq<char>, IntParseError>(e),
        },
{
    match parse_usize(w.as_str()) {
        Ok(n) => Ok(decimal_string(n as u64)),
        Err(e) => Err(e),
    }
}

fn is_word(w: &String, literal: &str) -> (b: bool)
    ensures
        b == (w@ == literal@),
{
    str_equals(w.as_str(), literal)
}

fn simple_action(w: &String) -> (r: Option<CliDeviceAction>)
    ensures
        r == spec_simple_action(w@),
{
    if is_word(w, "connect") {
        Some(CliDeviceAction::Connect)
    } else if is_word(w, "status") {
        Some(CliDeviceAction::Status)
    } else if is_word(w, "stop") {
        Some(CliDeviceAction::Stop)
    } else if is_word(w, "disconnect") {
        Some(CliDeviceAction::Disconnect)
    } else {
        None
    }
}

fn program_step(w: &String) -> (r: Option<ProgramStep>)
    ensures
        r == spec_program_step(w@),
{
    if is_word(w, "start") {
        Some(ProgramStep::Start)
    } else if is_word(w, "adjust") {
        Some(ProgramStep::Adjust)
    } else if is_word(w, "continue") {
        Some(ProgramStep::Continue)
    } else {
        None
    }
}

fn parse_program(words: &Vec<String>, step: ProgramStep) -> (r: Result<CliCommand, CliError>)
    requires
        words@.len() == 6,
    ensures
        spec_cli_result(r) == spec_program(words@.map_values(|w: String| w@), step),
{
    let ghost ws = words@.map_values(|w: String| w@);
    assert(ws[1] == words@[1]@ && ws[2] == words@[2]@ && ws[3] == words@[3]@ && ws[4] == words@[4]@
        && ws[5] == words@[5]@);
    let id = match device_id(&words[1]) {
        Ok(id) => id,
        Err(e) => return Err(CliError::InvalidNumber(e)),
    };
    let mode = match CliMode::from_str(words[2].as_str()) {
        Ok(m) => m,
        Err(_) => return Err(CliError::UnknownMode { mode: words[2].clone() }),
    };
    let value1 = match parse_u16(words[3].as_str()) {
        Ok(v) => v,
        Err(e) => return Err(CliError::InvalidNumber(e)),
    };
    let value2 = match parse_u16(words[4].as_str()) {
        Ok(v) => v,
        Err(e) => return Err(CliError::InvalidNumber(e)),
    };
    let value3 = match parse_u16(words[5].as_str()) {
        Ok(v) => v,
        Err(e) => return Err(CliError::InvalidNumber(e)),
    };
    Ok(CliCommand::Device { id, action: CliDeviceAction::Program { step, mode, value1, value2, value3 } })
}

fn parse_battery_type_add(words: &Vec<String>) -> (r: Result<CliCommand, CliError>)
    requires
        words@.len() == 9,
    ensures
        spec_cli_result(r) == spec_battery_type_add(words@.map_values(|w: String| w@)),
{
    let ghost ws = words@.map_values(|w: String| w@);
    assert(ws[2] == words@[2]@ && ws[3] == words@[3]@ && ws[4] == words@[4]@ && ws[5] == words@[5]@
        && ws[6] == words@[6]@ && ws[7] == words@[7]@ && ws[8] == words@[8]@);
    let voltage_mv = match parse_i64(words[5].as_str()) {
        Ok(v) => v,
        Err(e) => return Err(CliError::InvalidNumber(e)),
    };
    let capacity_mah = match parse_i64(words[6].as_str()) {
        Ok(v) => v,
        Err(e) => return Err(CliError::InvalidNumber(e)),
    };
    let charge_termination_voltage_mv = match parse_i64(words[7].as_str()) {
        Ok(v) => v,
        Err(e) => return Err(CliError::InvalidNumber(e)),
    };
    let discharge_cutoff_voltage_mv = match parse_i64(words[8].as_str()) {
        Ok(v) => v,
        Err(e) => return Err(CliError::InvalidNumber(e)),
    };
    Ok(
        CliCommand::BatteryTypeAdd {
            manufacturer: words[2].clone(),
            model: words[3].clone(),
            chemistry: words[4].clone(),
            voltage_mv,
            capacity_mah,
            charge_termination_voltage_mv,
            discharge_cutoff_voltage_mv,
        },
    )
}

/// Reads one line of CLI input: its words decide the command, numbers are
/// read as the command needs them, and the first number or mode that cannot
/// be read is the error.
pub fn parse_cli_line(line: &str) -> (r: Result<CliCommand, CliError>)
    ensures
        spec_cli_result(r) == spec_parse_cli(spec_words(line@)),
{
    let words = split_whitespace(line);
    let ghost ws = words@.map_values(|w: String| w@);
    assert(ws == spec_words(line@));
    let n = words.len();
    if n == 0 {
        return Ok(CliCommand::Empty);
    }
    assert(ws[0] == words@[0]@);
    if n >= 2 {
        assert(ws[1] == words@[1]@);
    }
    if n >= 3 {
        assert(ws[2] == words@[2]@);
    }
    if n >= 4 {
        assert(ws[3] == words@[3]@);
    }
    if n >= 5 {
        assert(ws[4] == words@[4]@);
    }
    if n == 1 && (is_word(&words[0], "quit") || is_word(&words[0], "exit")) {
        return Ok(CliCommand::Quit);
    }
    if n == 1 && is_word(&words[0], "help") {
        return Ok(CliCommand::Help);
    }
    if n == 2 {
        match simple_action(&words[0]) {
            Some(action) => {
                return match device_id(&words[1]) {
                    Ok(id) => Ok(CliCommand::Device { id, action }),
                    Err(e) => Err(CliError::InvalidNumber(e)),
                };
            },
            None => {},
        }
    }
    if n == 6 {
        match program_step(&words[0]) {
            Some(step) => {
                return parse_program(&words, step);
            },
            None => {},
        }
    }
    if n == 2 && is_word(&words[0], "battery-type") && is_word(&words[1], "list") {
        return Ok(CliCommand::BatteryTypeList);
    }
    if n == 9 && is_word(&words[0], "battery-type") && is_word(&words[1], "add") {
        return parse_battery_type_add(&words);
    }
    if n == 4 && is_word(&words[0], "battery") && is_word(&words[1], "add") {
        return match parse_i64(words[3].as_str()) {
            Ok(t) => Ok(CliCommand::BatteryAdd { battery_id: words[2].clone(), battery_type_id: t }),
            Err(e) => Err(CliError::InvalidNumber(e)),
        };
    }
    if n == 2 && is_word(&words[0], "battery") && is_word(&words[1], "list") {
        return Ok(CliCommand::BatteryList);
    }
    if n == 3 && is_word(&words[0], "battery") && is_word(&words[1], "show") {
        return Ok(CliCommand::BatteryShow { battery_id: words[2].clone() });
    }
    if n == 3 && is_word(&words[0], "battery-intake") && is_word(&words[1], "show") {
        return Ok(CliCommand::BatteryIntakeShow { battery_id: words[2].clone() });
    }
    if n == 5 && is_word(&words[0], "battery-intake") && is_word(&words[1], "set") {
        let voltage_mv = match parse_i64(words[3].as_str()) {
            Ok(v) => v,
            Err(e) => return Err(CliError::InvalidNumber(e)),
        };
        return match parse_i64(words[4].as_str()) {
            Ok(resistance_uohm) => Ok(
                CliCommand::BatteryIntakeSet { battery_id: words[2].clone(), voltage_mv, resistance_uohm },
            ),
            Err(e) => Err(CliError::InvalidNumber(e)),
        };
    }
    Ok(CliCommand::Unknown { words })
}

/// A line of six words that opens with a step word runs a program with that
/// step: "start" starts, "adjust" adjusts and "continue" continues the
/// program. The mode and the three values are the words that follow, in
/// this order, and the line is read whenever the id, the mode and the
/// values can be read.
pub proof fn lemma_program_line_step(words: Seq<Seq<char>>)
    requires
        words.len() == 6,
        words[0] == "start"@ || words[0] == "adjust"@ || words[0] == "continue"@,
    ensures
        match spec_parse_cli(words) {
            Ok(CliCommandView::Device { id, action: CliDeviceAction::Program { step, mode, value1, value2, value3 } }) => {
                &&& words[0] == "start"@ ==> step == ProgramStep::Start
                &&& words[0] == "adjust"@ ==> step == ProgramStep::Adjust
                &&& words[0] == "continue"@ ==> step == ProgramStep::Continue
                &&& spec_cli_mode(words[2]) == Some(mode)
                &&& spec_parse_u16(words[3]) == Ok::<int, IntParseError>(value1 as int)
                &&& spec_parse_u16(words[4]) == Ok::<int, IntParseError>(value2 as int)
                &&& spec_parse_u16(words[5]) == Ok::<int, IntParseError>(value3 as int)
            },
            Ok(_) => false,
            Err(_) => true,
        },
        (spec_parse_usize(words[1]) is Ok && spec_cli_mode(words[2]) is Some
            && spec_parse_u16(words[3]) is Ok && spec_parse_u16(words[4]) is Ok
            && spec_parse_u16(words[5]) is Ok) ==> spec_parse_cli(words) is Ok,
{
    reveal_strlit("start");
    reveal_strlit("adjust");
    reveal_strlit("continue");
    assert("start"@ != "adjust"@ && "start"@ != "continue"@ && "adjust"@ != "continue"@) by {
        assert("start"@.len() != "adjust"@.len());
        assert("start"@[2] != "continue"@[2]);
        assert("adjust"@.len() != "continue"@.len());
    }
    lemma_parse_int_range(words[3], false, 0, u16::MAX as int);
    lemma_parse_int_range(words[4], false, 0, u16::MAX as int);
    lemma_parse_int_range(words[5], false, 0, u16::MAX as int);
}

/// A line of two words that opens with a device word acts on the device
/// that the second word names: "connect" connects, "status" asks for the
/// status, "stop" stops and "disconnect" disconnects.
pub proof fn lemma_device_line_action(words: Seq<Seq<char>>)
    requires
        words.len() == 2,
        words[0] == "connect"@ || words[0] == "status"@ || words[0] == "stop"@ || words[0]
            == "disconnect"@,
    ensures
        match spec_parse_cli(words) {
            Ok(CliCommandView::Device { id, action }) => {
                &&& words[0] == "connect"@ ==> action == CliDeviceAction::Connect
                &&& words[0] == "status"@ ==> action == CliDeviceAction::Status
                &&& words[0] == "stop"@ ==> action == CliDeviceAction::Stop
                &&& words[0] == "disconnect"@ ==> action == CliDeviceAction::Disconnect
                &&& spec_parse_usize(words[1]) is Ok
            },
            Ok(_) => false,
            Err(_) => spec_parse_usize(words[1]) is Err,
        },
{
    reveal_strlit("connect");
    reveal_strlit("status");
    reveal_strlit("stop");
    reveal_strlit("disconnect");
    reveal_strlit("quit");
    reveal_strlit("exit");
    reveal_strlit("help");
    assert("connect"@ != "status"@ && "connect"@ != "stop"@ && "connect"@ != "disconnect"@) by {
        assert("connect"@.len() != "status"@.len());
        assert("connect"@.len() != "stop"@.len());
        assert("connect"@.len() != "disconnect"@.len());
    }
    assert("status"@ != "stop"@ && "status"@ != "disconnect"@ && "stop"@ != "disconnect"@) by {
        assert("status"@.len() != "stop"@.len());
        assert("status"@.len() != "disconnect"@.len());
        assert("stop"@.len() != "disconnect"@.len());
    }
}

/// The mode words: "DSC-CC" or "dsc-cc" is a constant current discharge,
/// "DSC-CP" or "dsc-cp" a constant power discharge and "CHG-CV" or "chg-cv"
/// a charge; no other word is a mode.
pub proof fn lemma_mode_words(w: Seq<char>)
    ensures
        spec_cli_mode(w) == Some(CliMode::DscCc) <==> (w == "DSC-CC"@ || w == "dsc-cc"@),
        spec_cli_mode(w) == Some(CliMode::DscCp) <==> (w == "DSC-CP"@ || w == "dsc-cp"@),
        spec_cli_mode(w) == Some(CliMode::ChgCv) <==> (w == "CHG-CV"@ || w == "chg-cv"@),
        spec_cli_mode(w) is None <==> !(w == "DSC-CC"@ || w == "dsc-cc"@ || w == "DSC-CP"@ || w
            == "dsc-cp"@ || w == "CHG-CV"@ || w == "chg-cv"@),
{
    reveal_strlit("DSC-CC");
    reveal_strlit("dsc-cc");
    reveal_strlit("DSC-CP");
    reveal_strlit("dsc-cp");
    reveal_strlit("CHG-CV");
    reveal_strlit("chg-cv");
    assert("DSC-CC"@[5] != "DSC-CP"@[5] && "DSC-CC"@[5] != "dsc-cp"@[5] && "DSC-CC"@[0] != "CHG-CV"@[0]
        && "DSC-CC"@[0] != "chg-cv"@[0]);
    assert("dsc-cc"@[5] != "DSC-CP"@[5] && "dsc-cc"@[5] != "dsc-cp"@[5] && "dsc-cc"@[0] != "CHG-CV"@[0]
        && "dsc-cc"@[0] != "chg-cv"@[0]);
    assert("DSC-CP"@[0] != "CHG-CV"@[0] && "DSC-CP"@[0] != "chg-cv"@[0] && "dsc-cp"@[0] != "CHG-CV"@[0]
        && "dsc-cp"@[0] != "chg-cv"@[0]);
}

/// A program line sends the command byte of its step and mode: the mode
/// gives the high nibble (0x00 for a constant current discharge, 0x10 for
/// a constant power discharge, 0x20 for a charge) and the step the low one
/// (1 to start, 7 to adjust, 8 to continue); the three values go out in the
/// order of the line, currents and voltages in tens of mA and mV.
pub proof fn lemma_program_command_byte(step: ProgramStep, mode: CliMode, a: u16, b: u16, c: u16)
    ensures
        ({
            let cmd = spec_program_command(step, mode, a, b, c);
            let high: int = match mode {
                CliMode::DscCc => 0x00,
                CliMode::DscCp => 0x10,
                CliMode::ChgCv => 0x20,
            };
            let low: int = match step {
                ProgramStep::Start => 1,
                ProgramStep::Adjust => 7,
                ProgramStep::Continue => 8,
            };
            &&& spec_device_command_byte(cmd) == high + low
            &&& spec_device_command_values(cmd) == (
                if mode == CliMode::DscCp { a as int } else { a as int / 10 },
                b as int / 10,
                if mode == CliMode::ChgCv { c as int / 10 } else { c as int },
            )
        }),
{
}

} // verus!
