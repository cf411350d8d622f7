use vstd::prelude::*;

use crate::text::{lemma_trim_idempotent, spec_trim, trim};
use crate::web::error::{AppError, HttpStatus};
use crate::web::forms::{BatteryIntakeForm, CreateBatteryForm, UpdateBatteryForm};

verus! {

pub const MSG_ID_EMPTY: &'static str = "Die Batterie-ID darf nicht leer sein.";

pub const MSG_ID_TOO_LONG: &'static str = "Die Batterie-ID darf höchstens 100 Zeichen enthalten.";

pub const MSG_ID_CHARACTERS: &'static str =
    "Die Batterie-ID darf nur Buchstaben, Zahlen, Bindestriche, Unterstriche und Punkte enthalten.";

pub const MSG_BATTERY_TYPE_REQUIRED: &'static str =
    "Es muss ein gültiger Batterietyp ausgewählt werden.";

pub const MSG_DELIVERY_VOLTAGE: &'static str =
    "Die Spannung bei Lieferung muss größer als 0 mV sein.";

pub const MSG_NEGATIVE_RESISTANCE: &'static str = "Der Innenwiderstand darf nicht negativ sein.";

/// The number of bytes that UTF-8 needs for `c`.
pub open spec fn spec_utf8_width(c: char) -> nat {
    let u = c as u32;
    if u < 0x80 {
        1
    } else if u < 0x800 {
        2
    } else if u < 0x10000 {
        3
    } else {
        4
    }
}

/// The length in bytes of the UTF-8 encoding of `s`, which `str::len` gives.
pub open spec fn spec_utf8_size(s: Seq<char>) -> nat
    decreases s.len(),
{
    if s.len() == 0 {
        0
    } else {
        spec_utf8_size(s.drop_last()) + spec_utf8_width(s.last())
    }
}

/// Characters allowed in a battery id: ASCII letters and digits, '-', '_'
/// and '.'.
pub open spec fn spec_is_id_char(c: char) -> bool {
    ||| '0' <= c <= '9'
    ||| 'a' <= c <= 'z'
    ||| 'A' <= c <= 'Z'
    ||| c == '-'
    ||| c == '_'
    ||| c == '.'
}

/// Why a battery id is refused, or `None` when it is valid: after trimming
/// it must not be empty, must take at most 100 bytes and may only hold
/// allowed characters.
pub open spec fn spec_battery_id_error(id: Seq<char>) -> Option<Seq<char>> {
    let t = spec_trim(id);
    if t.len() == 0 {
        Some(MSG_ID_EMPTY@)
    } else if spec_utf8_size(t) > 100 {
        Some(MSG_ID_TOO_LONG@)
    } else if !(forall|i: int| 0 <= i < t.len() ==> spec_is_id_char(#[trigger] t[i])) {
        Some(MSG_ID_CHARACTERS@)
    } else {
        None
    }
}

/// Why the form that registers a battery is refused, if it is.
pub open spec fn spec_create_battery_error(form: CreateBatteryForm) -> Option<Seq<char>> {
    if spec_battery_id_error(form.battery_id@) is Some {
        spec_battery_id_error(form.battery_id@)
    } else if form.battery_type_id <= 0 {
        Some(MSG_BATTERY_TYPE_REQUIRED@)
    } else {
        None
    }
}

/// Why the intake form is refused, if it is.
pub open spec fn spec_battery_intake_error(form: BatteryIntakeForm) -> Option<Seq<char>> {
    if form.voltage_at_delivery_mv matches Some(v) && v <= 0 {
        Some(MSG_DELIVERY_VOLTAGE@)
    } else if form.internal_resistance_at_delivery_uohm matches Some(r) && r < 0 {
        Some(MSG_NEGATIVE_RESISTANCE@)
    } else {
        None
    }
}

/// A check result: success when there is no error message, else a bad
/// request with the message.
pub open spec fn spec_checked(r: Result<(), AppError>, error: Option<Seq<char>>) -> bool {
    match r {
        Ok(()) => error is None,
        Err(e) => error is Some && e@ == (HttpStatus::BadRequest, error.unwrap()),
    }
}

proof fn lemma_utf8_size_prefix(s: Seq<char>, i: int, j: int)
    requires
        0 <= i <= j <= s.len(),
    ensures
        spec_utf8_size(s.take(i)) <= spec_utf8_size(s.take(j)),
    decreases j - i,
{
    if i < j {
        assert(s.take(j).drop_last() =~= s.take(j - 1));
        lemma_utf8_size_prefix(s, i, j - 1);
    }
}

/// Whether the UTF-8 encoding of `s` takes more than `limit` bytes.
fn utf8_size_exceeds(s: &str, limit: u64) -> (b: bool)
    requires
        limit <= 1000,
    ensures
        b == (spec_utf8_size(s@) > limit),
{
    let n = s.unicode_len();
    let mut total: u64 = 0;
    let mut i: usize = 0;
    while i < n
        invariant
            n == s@.len(),
            i <= n,
            total == spec_utf8_size(s@.take(i as int)),
            total <= limit,
            limit <= 1000,
        decreases n - i,
    {
        let c = s.get_char(i);
        let u = c as u32;
        let width: u64 = if u < 0x80 {
            1
        } else if u < 0x800 {
            2
        } else if u < 0x10000 {
            3
        } else {
            4
        };
        assert(s@.take(i + 1).drop_last() =~= s@.take(i as int));
        total = total + width;
        i = i + 1;
        if total > limit {
            proof {
                lemma_utf8_size_prefix(s@, i as int, n as int);
                assert(s@.take(n as int) =~= s@);
            }
            return true;
        }
    }
    assert(s@.take(n as int) =~= s@);
    false
}

/// Whether `c` may stand in a battery id.
fn is_id_char(c: char) -> (b: bool)
    ensures
        b == spec_is_id_char(c),
{
    ('0' <= c && c <= '9') || ('a' <= c && c <= 'z') || ('A' <= c && c <= 'Z') || c == '-' || c
        == '_' || c == '.'
}

/// Checks a battery id.
pub fn validate_battery_id(battery_id: &str) -> (r: Result<(), AppError>)
    ensures
        spec_checked(r, spec_battery_id_error(battery_id@)),
{
    let t = trim(battery_id);
    let n = t.unicode_len();
    if n == 0 {
        return Err(AppError::bad_request(MSG_ID_EMPTY));
    }
    if utf8_size_exceeds(t.as_str(), 100) {
        return Err(AppError::bad_request(MSG_ID_TOO_LONG));
    }
    let mut i: usize = 0;
    while i < n
        invariant
            n == t@.len(),
            t@ == spec_trim(battery_id@),
            n > 0,
            spec_utf8_size(t@) <= 100,
            i <= n,
            forall|k: int| 0 <= k < i ==> spec_is_id_char(#[trigger] t@[k]),
        decreases n - i,
    {
        let c = t.as_str().get_char(i);
        if !is_id_char(c) {
            assert(!spec_is_id_char(t@[i as int]));
            return Err(AppError::bad_request(MSG_ID_CHARACTERS));
        }
        i = i + 1;
    }
    Ok(())
}

/// Checks the form that registers a battery: a valid id and a battery type
/// chosen.
pub fn validate_create_battery(form: &CreateBatteryForm) -> (r: Result<(), AppError>)
    ensures
        spec_checked(r, spec_create_battery_error(*form)),
{
    match validate_battery_id(form.battery_id.as_str()) {
        Ok(()) => {},
        Err(e) => return Err(e),
    }
    if form.battery_type_id <= 0 {
        return Err(AppError::bad_request(MSG_BATTERY_TYPE_REQUIRED));
    }
    Ok(())
}

/// Checks the form that edits a battery: a battery type must be chosen.
pub fn validate_update_battery(form: &UpdateBatteryForm) -> (r: Result<(), AppError>)
    ensures
        spec_checked(
            r,
            if form.battery_type_id <= 0 {
                Some(MSG_BATTERY_TYPE_REQUIRED@)
            } else {
                None
            },
        ),
{
    if form.battery_type_id <= 0 {
        return Err(AppError::bad_request(MSG_BATTERY_TYPE_REQUIRED));
    }
    Ok(())
}

/// Checks the intake form: a delivery voltage must be positive and an
/// internal resistance must not be negative.
pub fn validate_battery_intake(form: &BatteryIntakeForm) -> (r: Result<(), AppError>)
    ensures
        spec_checked(r, spec_battery_intake_error(*form)),
{
    match form.voltage_at_delivery_mv {
        Some(value) => {
            if value <= 0 {
                return Err(AppError::bad_request(MSG_DELIVERY_VOLTAGE));
            }
        },
        None => {},
    }
    match form.internal_resistance_at_delivery_uohm {
        Some(value) => {
            if value < 0 {
                return Err(AppError::bad_request(MSG_NEGATIVE_RESISTANCE));
            }
        },
        None => {},
    }
    Ok(())
}


/// The id of a battery that passed the form check validates again once it
/// is stored trimmed: it is not empty, takes at most 100 bytes and holds
/// only allowed characters.
pub proof fn lemma_battery_id_revalidates(form: CreateBatteryForm)
    requires
        spec_create_battery_error(form) is None,
    ensures
        spec_battery_id_error(spec_trim(form.battery_id@)) is None,
        spec_trim(form.battery_id@).len() > 0,
        spec_utf8_size(spec_trim(form.battery_id@)) <= 100,
{
    lemma_trim_idempotent(form.battery_id@);
}

/// A battery id is accepted exactly when, after trimming, it is not empty,
/// takes at most 100 bytes of UTF-8 and holds only ASCII letters of either
/// case, ASCII digits, '-', '_' and '.'.
pub proof fn lemma_battery_id_accepted(id: Seq<char>)
    ensures
        spec_battery_id_error(id) is None <==> {
            &&& spec_trim(id).len() > 0
            &&& spec_utf8_size(spec_trim(id)) <= 100
            &&& forall|i: int|
                #![trigger spec_trim(id)[i]]
                0 <= i < spec_trim(id).len() ==> (('0' <= spec_trim(id)[i] && spec_trim(id)[i] <= '9')
                    || ('a' <= spec_trim(id)[i] && spec_trim(id)[i] <= 'z') || ('A' <= spec_trim(id)[i]
                    && spec_trim(id)[i] <= 'Z') || spec_trim(id)[i] == '-' || spec_trim(id)[i] == '_'
                    || spec_trim(id)[i] == '.')
        },
{
}

/// A battery is registered exactly when its id is accepted and a battery
/// type is chosen.
pub proof fn lemma_create_battery_accepted(form: CreateBatteryForm)
    ensures
        spec_create_battery_error(form) is None <==> (spec_battery_id_error(form.battery_id@) is None
            && form.battery_type_id > 0),
{
}

/// An intake form is accepted exactly when a given delivery voltage is
/// positive and a given internal resistance is not negative; fields left
/// empty are always accepted.
pub proof fn lemma_battery_intake_accepted(form: BatteryIntakeForm)
    ensures
        spec_battery_intake_error(form) is None <==> {
            &&& (form.voltage_at_delivery_mv matches Some(v) ==> v > 0)
            &&& (form.internal_resistance_at_delivery_uohm matches Some(r) ==> r >= 0)
        },
{
}

} // verus!
