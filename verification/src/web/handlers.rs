use vstd::prelude::*;

use crate::text::{signed_decimal_string, spec_signed_decimal, spec_trim, trim};
use crate::web::error::{AppError, HttpStatus};
use crate::web::forms::{BatteryTypeForm, CreateBatteryTypeForm};
use crate::web::validation::spec_checked;

verus! {

pub const MSG_MANUFACTURER_EMPTY: &'static str = "Der Hersteller darf nicht leer sein.";

pub const MSG_MODEL_EMPTY: &'static str = "Das Modell darf nicht leer sein.";

pub const MSG_CHEMISTRY_NOT_CHOSEN: &'static str = "Die Zellchemie muss ausgewählt werden.";

pub const MSG_CHEMISTRY_EMPTY: &'static str = "Die Chemie darf nicht leer sein.";

pub const MSG_NOMINAL_VOLTAGE: &'static str = "Die Nennspannung muss größer als 0 sein.";

pub const MSG_NOMINAL_CAPACITY: &'static str = "Die Nennkapazität muss größer als 0 sein.";

pub const MSG_CHARGE_TERMINATION: &'static str =
    "Die Ladeschlussspannung muss über der Nennspannung liegen.";

pub const MSG_DISCHARGE_CUTOFF: &'static str =
    "Die Entladeschlussspannung muss unter der Nennspannung liegen.";

pub const MSG_BATTERY_TYPE_NOT_FOUND: &'static str = "Der Batterietyp wurde nicht gefunden.";

/// Where the list of battery types is shown.
pub const BATTERY_TYPES_PATH: &'static str = "/battery-types";

/// Why the form that creates a battery type is refused, if it is.
pub open spec fn spec_create_battery_type_error(form: CreateBatteryTypeForm) -> Option<Seq<char>> {
    if spec_trim(form.manufacturer@).len() == 0 {
        Some(MSG_MANUFACTURER_EMPTY@)
    } else if spec_trim(form.model@).len() == 0 {
        Some(MSG_MODEL_EMPTY@)
    } else if spec_trim(form.chemistry@).len() == 0 {
        Some(MSG_CHEMISTRY_NOT_CHOSEN@)
    } else if form.nominal_voltage_mv <= 0 {
        Some(MSG_NOMINAL_VOLTAGE@)
    } else if form.nominal_capacity_mah <= 0 {
        Some(MSG_NOMINAL_CAPACITY@)
    } else {
        None
    }
}

/// Why the form that edits a battery type is refused, if it is: the texts
/// must not be blank, the nominal values must be positive and the charge
/// termination voltage must lie above, the discharge cutoff voltage below
/// the nominal voltage.
pub open spec fn spec_battery_type_form_error(form: BatteryTypeForm) -> Option<Seq<char>> {
    if spec_trim(form.manufacturer@).len() == 0 {
        Some(MSG_MANUFACTURER_EMPTY@)
    } else if spec_trim(form.model@).len() == 0 {
        Some(MSG_MODEL_EMPTY@)
    } else if spec_trim(form.chemistry@).len() == 0 {
        Some(MSG_CHEMISTRY_EMPTY@)
    } else if form.nominal_voltage_mv <= 0 {
        Some(MSG_NOMINAL_VOLTAGE@)
    } else if form.nominal_capacity_mah <= 0 {
        Some(MSG_NOMINAL_CAPACITY@)
    } else if form.charge_termination_voltage_mv <= form.nominal_voltage_mv {
        Some(MSG_CHARGE_TERMINATION@)
    } else if form.discharge_cutoff_voltage_mv >= form.nominal_voltage_mv {
        Some(MSG_DISCHARGE_CUTOFF@)
    } else {
        None
    }
}

/// Checks the form that creates a battery type and gives the values to
/// store, with the texts trimmed.
pub fn check_create_battery_type(form: &CreateBatteryTypeForm) -> (r: Result<
    CreateBatteryTypeForm,
    AppError,
>)
    ensures
        match r {
            Ok(v) => {
                &&& spec_create_battery_type_error(*form) is None
                &&& v.manufacturer@.len() > 0 && v.model@.len() > 0 && v.chemistry@.len() > 0
                &&& v.nominal_voltage_mv > 0 && v.nominal_capacity_mah > 0
                &&& v.manufacturer@ == spec_trim(form.manufacturer@)
                &&& v.model@ == spec_trim(form.model@)
                &&& v.chemistry@ == spec_trim(form.chemistry@)
                &&& v.nominal_voltage_mv == form.nominal_voltage_mv
                &&& v.nominal_capacity_mah == form.nominal_capacity_mah
                &&& v.charge_termination_voltage_mv == form.charge_termination_voltage_mv
                &&& v.discharge_cutoff_voltage_mv == form.discharge_cutoff_voltage_mv
            },
            Err(e) => {
                &&& spec_create_battery_type_error(*form) is Some
                &&& e@ == (HttpStatus::BadRequest, spec_create_battery_type_error(*form).unwrap())
            },
        },
{
    let manufacturer = trim(form.manufacturer.as_str());
    let model = trim(form.model.as_str());
    let chemistry = trim(form.chemistry.as_str());
    if manufacturer.unicode_len() == 0 {
        return Err(AppError::bad_request(MSG_MANUFACTURER_EMPTY));
    }
    if model.unicode_len() == 0 {
        return Err(AppError::bad_request(MSG_MODEL_EMPTY));
    }
    if chemistry.unicode_len() == 0 {
        return Err(AppError::bad_request(MSG_CHEMISTRY_NOT_CHOSEN));
    }
    if form.nominal_voltage_mv <= 0 {
        return Err(AppError::bad_request(MSG_NOMINAL_VOLTAGE));
    }
    if form.nominal_capacity_mah <= 0 {
        return Err(AppError::bad_request(MSG_NOMINAL_CAPACITY));
    }
    Ok(
        CreateBatteryTypeForm {
            manufacturer,
            model,
            chemistry,
            nominal_voltage_mv: form.nominal_voltage_mv,
            nominal_capacity_mah: form.nominal_capacity_mah,
            charge_termination_voltage_mv: form.charge_termination_voltage_mv,
            discharge_cutoff_voltage_mv: form.discharge_cutoff_voltage_mv,
        },
    )
}

/// Checks the form that edits a battery type.
pub fn validate_battery_type_form(form: &BatteryTypeForm) -> (r: Result<(), AppError>)
    ensures
        spec_checked(r, spec_battery_type_form_error(*form)),
{
    if trim(form.manufacturer.as_str()).unicode_len() == 0 {
        return Err(AppError::bad_request(MSG_MANUFACTURER_EMPTY));
    }
    if trim(form.model.as_str()).unicode_len() == 0 {
        return Err(AppError::bad_request(MSG_MODEL_EMPTY));
    }
    if trim(form.chemistry.as_str()).unicode_len() == 0 {
        return Err(AppError::bad_request(MSG_CHEMISTRY_EMPTY));
    }
    if form.nominal_voltage_mv <= 0 {
        return Err(AppError::bad_request(MSG_NOMINAL_VOLTAGE));
    }
    if form.nominal_capacity_mah <= 0 {
        return Err(AppError::bad_request(MSG_NOMINAL_CAPACITY));
    }
    if form.charge_termination_voltage_mv <= form.nominal_voltage_mv {
        return Err(AppError::bad_request(MSG_CHARGE_TERMINATION));
    }
    if form.discharge_cutoff_voltage_mv >= form.nominal_voltage_mv {
        return Err(AppError::bad_request(MSG_DISCHARGE_CUTOFF));
    }
    Ok(())
}

/// The page of battery type `id`.
pub fn battery_type_path(id: i64) -> (p: String)
    ensures
        p@ == "/battery-types/"@ + spec_signed_decimal(id as int),
{
    let mut p = String::from_str("/battery-types/");
    let digits = signed_decimal_string(id);
    p.append(digits.as_str());
    p
}

/// The page of battery `battery_id`.
pub fn battery_path(battery_id: &str) -> (p: String)
    ensures
        p@ == "/batteries/"@ + battery_id@,
{
    let mut p = String::from_str("/batteries/");
    p.append(battery_id);
    p
}

/// The answer when battery `battery_id` does not exist.
pub fn battery_not_found(battery_id: &str) -> (e: AppError)
    ensures
        e@ == (HttpStatus::NotFound, "Die Batterie '"@ + battery_id@ + "' wurde nicht gefunden."@),
{
    let mut m = String::from_str("Die Batterie '");
    m.append(battery_id);
    m.append("' wurde nicht gefunden.");
    AppError::not_found(m.as_str())
}

/// The answer when battery type `id` does not exist.
pub fn battery_type_not_found(id: i64) -> (e: AppError)
    ensures
        e@ == (HttpStatus::NotFound, "Der Batterietyp "@ + spec_signed_decimal(id as int)
            + " wurde nicht gefunden."@),
{
    let mut m = String::from_str("Der Batterietyp ");
    let digits = signed_decimal_string(id);
    m.append(digits.as_str());
    m.append(" wurde nicht gefunden.");
    AppError::not_found(m.as_str())
}

/// A new battery type is accepted exactly when its trimmed manufacturer,
/// model and chemistry are not blank and its nominal voltage and nominal
/// capacity are positive.
pub proof fn lemma_create_battery_type_accepted(form: CreateBatteryTypeForm)
    ensures
        spec_create_battery_type_error(form) is None <==> {
            &&& spec_trim(form.manufacturer@).len() > 0
            &&& spec_trim(form.model@).len() > 0
            &&& spec_trim(form.chemistry@).len() > 0
            &&& form.nominal_voltage_mv > 0
            &&& form.nominal_capacity_mah > 0
        },
{
}

/// An edited battery type is accepted exactly when its texts are not blank,
/// its nominal voltage and capacity are positive and its nominal voltage
/// lies strictly between the discharge cutoff and the charge termination
/// voltage.
pub proof fn lemma_battery_type_form_accepted(form: BatteryTypeForm)
    ensures
        spec_battery_type_form_error(form) is None <==> {
            &&& spec_trim(form.manufacturer@).len() > 0
            &&& spec_trim(form.model@).len() > 0
            &&& spec_trim(form.chemistry@).len() > 0
            &&& form.nominal_voltage_mv > 0
            &&& form.nominal_capacity_mah > 0
            &&& form.discharge_cutoff_voltage_mv < form.nominal_voltage_mv
            &&& form.nominal_voltage_mv < form.charge_termination_voltage_mv
        },
{
}

} // verus!
