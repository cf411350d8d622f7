use vstd::prelude::*;

verus! {

/// One battery or cell of the inventory.
#[derive(Debug, Clone)]
pub struct Battery {
    pub battery_id: String,
    pub battery_type_id: i64,
    pub notes: Option<String>,
}

/// What was recorded when a battery was delivered.
#[derive(Debug, Clone)]
pub struct BatteryIntake {
    pub battery_id: String,
    pub serial_number: Option<String>,
    pub purchase_date: Option<String>,
    pub delivery_date: Option<String>,
    pub voltage_at_delivery_mv: Option<i64>,
    pub internal_resistance_at_delivery_uohm: Option<i64>,
    pub visual_inspection: Option<String>,
    pub notes: Option<String>,
}

/// A battery model with its nominal values.
#[derive(Debug, Clone)]
pub struct BatteryType {
    pub id: i64,
    pub manufacturer: String,
    pub model: String,
    pub chemistry: String,
    pub nominal_voltage_mv: i64,
    pub nominal_capacity_mah: i64,
    pub charge_termination_voltage_mv: i64,
    pub discharge_cutoff_voltage_mv: i64,
    pub notes: Option<String>,
}

/// One measurement taken during a test session.
#[derive(Debug, Clone)]
pub struct Sample {
    pub session_id: i64,
    pub sample_index: i64,
    pub timestamp: String,
    pub elapsed_ms: i64,
    pub voltage_mv: i64,
    pub current_ma: i64,
    pub capacity_mah: i64,
    pub energy_mwh: Option<i64>,
}

/// One uninterrupted run of a test.
#[derive(Debug, Clone)]
pub struct TestSession {
    pub id: i64,
    pub test_id: i64,
    pub started_at: String,
    pub ended_at: Option<String>,
    pub reason: Option<String>,
}

/// A planned or finished test of a battery on a device.
#[derive(Debug, Clone)]
pub struct Test {
    pub id: i64,
    pub battery_id: String,
    pub approved: bool,
    pub device_id: String,
    pub mode: String,
    pub voltage_before_test_mv: Option<i64>,
    pub target_current_ma: Option<i64>,
    pub target_power_w: Option<i64>,
    pub cutoff_voltage_mv: Option<i64>,
    pub cutoff_time_min: Option<i64>,
    pub charge_voltage_mv: Option<i64>,
    pub charge_cutoff_current_ma: Option<i64>,
    pub measured_capacity_mah: Option<i64>,
    pub measured_energy_mwh: Option<i64>,
    pub end_voltage_mv: Option<i64>,
    pub notes: Option<String>,
}

} // verus!
