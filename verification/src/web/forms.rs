use vstd::prelude::*;

use crate::db_access::models::{Battery, BatteryIntake, BatteryType};
use crate::text::{lemma_trim_idempotent, parse_i64, spec_parse_i64, spec_trim, trim, IntParseError};

verus! {

/// The fields of the form that creates a battery type.
#[derive(Debug)]
pub struct CreateBatteryTypeForm {
    pub manufacturer: String,
    pub model: String,
    pub chemistry: String,
    pub nominal_voltage_mv: i64,
    pub nominal_capacity_mah: i64,
    pub charge_termination_voltage_mv: i64,
    pub discharge_cutoff_voltage_mv: i64,
}

/// The fields of the form that edits a battery type.
#[derive(Debug)]
pub struct BatteryTypeForm {
    pub manufacturer: String,
    pub model: String,
    pub chemistry: String,
    pub nominal_voltage_mv: i64,
    pub nominal_capacity_mah: i64,
    pub charge_termination_voltage_mv: i64,
    pub discharge_cutoff_voltage_mv: i64,
    pub notes: Option<String>,
}

/// The fields of the form that registers a battery.
#[derive(Debug)]
pub struct CreateBatteryForm {
    pub battery_id: String,
    pub battery_type_id: i64,
    pub notes: Option<String>,
}

/// The fields of the form that edits a battery.
#[derive(Debug)]
pub struct UpdateBatteryForm {
    pub battery_type_id: i64,
    pub notes: Option<String>,
}

/// The fields of the intake form of a battery.
#[derive(Debug)]
pub struct BatteryIntakeForm {
    pub serial_number: Option<String>,
    pub purchase_date: Option<String>,
    pub delivery_date: Option<String>,
    pub voltage_at_delivery_mv: Option<i64>,
    pub internal_resistance_at_delivery_uohm: Option<i64>,
    pub visual_inspection: Option<String>,
    pub notes: Option<String>,
}

/// The characters of an optional string.
pub open spec fn opt_view(o: Option<String>) -> Option<Seq<char>> {
    match o {
        Some(s) => Some(s@),
        None => None,
    }
}

/// An optional text without surrounding white space; blank text counts as
/// no text.
pub open spec fn spec_normalize(o: Option<Seq<char>>) -> Option<Seq<char>> {
    match o {
        Some(v) => if spec_trim(v).len() == 0 {
            None
        } else {
            Some(spec_trim(v))
        },
        None => None,
    }
}

/// What an optional number field holds: nothing when it is absent or blank,
/// else the trimmed text read as an `i64`.
pub open spec fn spec_optional_i64(o: Option<Seq<char>>) -> Result<Option<int>, IntParseError> {
    match o {
        None => Ok(None),
        Some(v) => if spec_trim(v).len() == 0 {
            Ok(None)
        } else {
            match spec_parse_i64(spec_trim(v)) {
                Ok(n) => Ok(Some(n)),
                Err(e) => Err(e),
            }
        },
    }
}

/// Trims an optional text and drops it when it is blank.
pub fn normalize_optional_string(value: Option<String>) -> (r: Option<String>)
    ensures
        opt_view(r) == spec_normalize(opt_view(value)),
{
    match value {
        Some(v) => {
            let t = trim(v.as_str());
            if t.unicode_len() == 0 {
                None
            } else {
                Some(t)
            }
        },
        None => None,
    }
}

/// Reads an optional number field: absent or blank means no number, other
/// text must be a decimal `i64` after trimming.
pub fn parse_optional_i64(value: Option<String>) -> (r: Result<Option<i64>, IntParseError>)
    ensures
        match r {
            Ok(Some(n)) => spec_optional_i64(opt_view(value)) == Ok::<Option<int>, IntParseError>(
                Some(n as int),
            ),
            Ok(None) => spec_optional_i64(opt_view(value)) == Ok::<Option<int>, IntParseError>(
                None,
            ),
            Err(e) => spec_optional_i64(opt_view(value)) == Err::<Option<int>, IntParseError>(e),
        },
{
    match value {
        None => Ok(None),
        Some(v) => {
            let t = trim(v.as_str());
            if t.unicode_len() == 0 {
                return Ok(None);
            }
            match parse_i64(t.as_str()) {
                Ok(n) => Ok(Some(n)),
                Err(e) => Err(e),
            }
        },
    }
}

impl CreateBatteryForm {
    /// The battery that the form describes, with its id trimmed.
    pub fn into_battery(self) -> (b: Battery)
        ensures
            b.battery_id@ == spec_trim(self.battery_id@),
            b.battery_type_id == self.battery_type_id,
            opt_view(b.notes) == spec_normalize(opt_view(self.notes)),
    {
        Battery {
            battery_id: trim(self.battery_id.as_str()),
            battery_type_id: self.battery_type_id,
            notes: normalize_optional_string(self.notes),
        }
    }
}

impl UpdateBatteryForm {
    /// The battery `battery_id` as the form describes it.
    pub fn into_battery(self, battery_id: String) -> (b: Battery)
        ensures
            b.battery_id == battery_id,
            b.battery_type_id == self.battery_type_id,
            opt_view(b.notes) == spec_normalize(opt_view(self.notes)),
    {
        Battery {
            battery_id,
            battery_type_id: self.battery_type_id,
            notes: normalize_optional_string(self.notes),
        }
    }
}

impl BatteryIntakeForm {
    /// The intake record of `battery_id` that the form describes; texts are
    /// trimmed and blank texts dropped.
    pub fn into_battery_intake(self, battery_id: String) -> (i: BatteryIntake)
        ensures
            i.battery_id == battery_id,
            opt_view(i.serial_number) == spec_normalize(opt_view(self.serial_number)),
            opt_view(i.purchase_date) == spec_normalize(opt_view(self.purchase_date)),
            opt_view(i.delivery_date) == spec_normalize(opt_view(self.delivery_date)),
            i.voltage_at_delivery_mv == self.voltage_at_delivery_mv,
            i.internal_resistance_at_delivery_uohm == self.internal_resistance_at_delivery_uohm,
            opt_view(i.visual_inspection) == spec_normalize(opt_view(self.visual_inspection)),
            opt_view(i.notes) == spec_normalize(opt_view(self.notes)),
    {
        BatteryIntake {
            battery_id,
            serial_number: normalize_optional_string(self.serial_number),
            purchase_date: normalize_optional_string(self.purchase_date),
            delivery_date: normalize_optional_string(self.delivery_date),
            voltage_at_delivery_mv: self.voltage_at_delivery_mv,
            internal_resistance_at_delivery_uohm: self.internal_resistance_at_delivery_uohm,
            visual_inspection: normalize_optional_string(self.visual_inspection),
            notes: normalize_optional_string(self.notes),
        }
    }
}

impl BatteryTypeForm {
    /// The battery type `id` that the form describes; texts are trimmed and
    /// blank notes dropped.
    pub fn into_battery_type(self, id: i64) -> (t: BatteryType)
        ensures
            t.id == id,
            t.manufacturer@ == spec_trim(self.manufacturer@),
            t.model@ == spec_trim(self.model@),
            t.chemistry@ == spec_trim(self.chemistry@),
            t.nominal_voltage_mv == self.nominal_voltage_mv,
            t.nominal_capacity_mah == self.nominal_capacity_mah,
            t.charge_termination_voltage_mv == self.charge_termination_voltage_mv,
            t.discharge_cutoff_voltage_mv == self.discharge_cutoff_voltage_mv,
            opt_view(t.notes) == spec_normalize(opt_view(self.notes)),
    {
        BatteryType {
            id,
            manufacturer: trim(self.manufacturer.as_str()),
            model: trim(self.model.as_str()),
            chemistry: trim(self.chemistry.as_str()),
            nominal_voltage_mv: self.nominal_voltage_mv,
            nominal_capacity_mah: self.nominal_capacity_mah,
            charge_termination_voltage_mv: self.charge_termination_voltage_mv,
            discharge_cutoff_voltage_mv: self.discharge_cutoff_voltage_mv,
            notes: normalize_optional_string(self.notes),
        }
    }
}


/// Normalizing an optional text twice gives what normalizing it once gives.
pub proof fn lemma_normalize_idempotent(o: Option<Seq<char>>)
    ensures
        spec_normalize(spec_normalize(o)) == spec_normalize(o),
{
    match o {
        Some(v) => {
            lemma_trim_idempotent(v);
        },
        None => {},
    }
}

} // verus!
