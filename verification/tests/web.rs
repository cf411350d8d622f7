use ebc_hub::web::error::{AppError, HttpStatus};
use ebc_hub::web::forms::{
    normalize_optional_string, parse_optional_i64, BatteryIntakeForm, BatteryTypeForm,
    CreateBatteryForm, CreateBatteryTypeForm, UpdateBatteryForm,
};
use ebc_hub::web::handlers::{
    battery_not_found, battery_path, battery_type_not_found, battery_type_path,
    check_create_battery_type, validate_battery_type_form,
};
use ebc_hub::web::validation::{
    validate_battery_id, validate_battery_intake, validate_create_battery, validate_update_battery,
};
use ebc_hub::text::IntParseError;

fn type_form() -> BatteryTypeForm {
    BatteryTypeForm {
        manufacturer: " EVE ".to_string(),
        model: "LF314".to_string(),
        chemistry: "LiFePO4".to_string(),
        nominal_voltage_mv: 3200,
        nominal_capacity_mah: 314000,
        charge_termination_voltage_mv: 3650,
        discharge_cutoff_voltage_mv: 2500,
        notes: Some("  ".to_string()),
    }
}

fn bad_request_message(r: Result<(), AppError>) -> String {
    let e = r.unwrap_err();
    assert_eq!(e.status(), HttpStatus::BadRequest);
    e.message().to_string()
}

#[test]
fn normalize_trims_and_drops_blank_text() {
    assert_eq!(normalize_optional_string(None), None);
    assert_eq!(normalize_optional_string(Some(" \t ".to_string())), None);
    assert_eq!(normalize_optional_string(Some(" note ".to_string())), Some("note".to_string()));
    let once = normalize_optional_string(Some("  x y  ".to_string()));
    assert_eq!(normalize_optional_string(once.clone()), once);
}

#[test]
fn optional_numbers() {
    assert_eq!(parse_optional_i64(None), Ok(None));
    assert_eq!(parse_optional_i64(Some("   ".to_string())), Ok(None));
    assert_eq!(parse_optional_i64(Some(" 3291 ".to_string())), Ok(Some(3291)));
    assert_eq!(parse_optional_i64(Some("-5".to_string())), Ok(Some(-5)));
    assert_eq!(parse_optional_i64(Some("3 291".to_string())), Err(IntParseError::InvalidDigit));
}

#[test]
fn forms_become_records() {
    let b = CreateBatteryForm {
        battery_id: "  eve-314ah-001 ".to_string(),
        battery_type_id: 1,
        notes: Some(" new ".to_string()),
    }
    .into_battery();
    assert_eq!(b.battery_id, "eve-314ah-001");
    assert_eq!(b.battery_type_id, 1);
    assert_eq!(b.notes, Some("new".to_string()));

    let u = UpdateBatteryForm { battery_type_id: 2, notes: Some("".to_string()) }
        .into_battery("b-1".to_string());
    assert_eq!(u.battery_id, "b-1");
    assert_eq!(u.battery_type_id, 2);
    assert_eq!(u.notes, None);

    let i = BatteryIntakeForm {
        serial_number: Some(" SN1 ".to_string()),
        purchase_date: None,
        delivery_date: Some("2024-01-02".to_string()),
        voltage_at_delivery_mv: Some(3291),
        internal_resistance_at_delivery_uohm: Some(180),
        visual_inspection: Some(" ".to_string()),
        notes: None,
    }
    .into_battery_intake("b-1".to_string());
    assert_eq!(i.serial_number, Some("SN1".to_string()));
    assert_eq!(i.delivery_date, Some("2024-01-02".to_string()));
    assert_eq!(i.visual_inspection, None);
    assert_eq!(i.voltage_at_delivery_mv, Some(3291));

    let t = type_form().into_battery_type(7);
    assert_eq!(t.id, 7);
    assert_eq!(t.manufacturer, "EVE");
    assert_eq!(t.notes, None);
}

#[test]
fn battery_ids_are_checked() {
    assert!(validate_battery_id(" eve-314ah_001.a ").is_ok());
    assert_eq!(bad_request_message(validate_battery_id("   ")), "Die Batterie-ID darf nicht leer sein.");
    assert_eq!(
        bad_request_message(validate_battery_id(&"a".repeat(101))),
        "Die Batterie-ID darf höchstens 100 Zeichen enthalten."
    );
    assert!(validate_battery_id(&"a".repeat(100)).is_ok());
    // 51 two-byte characters take 102 bytes: the length rule decides first.
    assert_eq!(
        bad_request_message(validate_battery_id(&"ä".repeat(51))),
        "Die Batterie-ID darf höchstens 100 Zeichen enthalten."
    );
    assert_eq!(
        bad_request_message(validate_battery_id("a b")),
        "Die Batterie-ID darf nur Buchstaben, Zahlen, Bindestriche, Unterstriche und Punkte enthalten."
    );
}

#[test]
fn battery_forms_are_checked() {
    let ok = CreateBatteryForm { battery_id: "b1".to_string(), battery_type_id: 1, notes: None };
    assert!(validate_create_battery(&ok).is_ok());
    let no_type = CreateBatteryForm { battery_id: "b1".to_string(), battery_type_id: 0, notes: None };
    assert_eq!(
        bad_request_message(validate_create_battery(&no_type)),
        "Es muss ein gültiger Batterietyp ausgewählt werden."
    );
    let bad_id = CreateBatteryForm { battery_id: "".to_string(), battery_type_id: 0, notes: None };
    assert_eq!(bad_request_message(validate_create_battery(&bad_id)), "Die Batterie-ID darf nicht leer sein.");
    assert!(validate_update_battery(&UpdateBatteryForm { battery_type_id: 3, notes: None }).is_ok());
    assert!(validate_update_battery(&UpdateBatteryForm { battery_type_id: -1, notes: None }).is_err());
}

#[test]
fn intake_forms_are_checked() {
    let mut form = BatteryIntakeForm {
        serial_number: None,
        purchase_date: None,
        delivery_date: None,
        voltage_at_delivery_mv: None,
        internal_resistance_at_delivery_uohm: Some(0),
        visual_inspection: None,
        notes: None,
    };
    assert!(validate_battery_intake(&form).is_ok());
    form.voltage_at_delivery_mv = Some(0);
    assert_eq!(
        bad_request_message(validate_battery_intake(&form)),
        "Die Spannung bei Lieferung muss größer als 0 mV sein."
    );
    form.voltage_at_delivery_mv = Some(3300);
    form.internal_resistance_at_delivery_uohm = Some(-1);
    assert_eq!(
        bad_request_message(validate_battery_intake(&form)),
        "Der Innenwiderstand darf nicht negativ sein."
    );
}

#[test]
fn battery_type_forms_are_checked() {
    assert!(validate_battery_type_form(&type_form()).is_ok());
    let cases: Vec<(fn(&mut BatteryTypeForm), &str)> = vec![
        (|f| f.manufacturer = " ".to_string(), "Der Hersteller darf nicht leer sein."),
        (|f| f.model = "".to_string(), "Das Modell darf nicht leer sein."),
        (|f| f.chemistry = "\t".to_string(), "Die Chemie darf nicht leer sein."),
        (|f| f.nominal_voltage_mv = 0, "Die Nennspannung muss größer als 0 sein."),
        (|f| f.nominal_capacity_mah = -1, "Die Nennkapazität muss größer als 0 sein."),
        (|f| f.charge_termination_voltage_mv = 3200, "Die Ladeschlussspannung muss über der Nennspannung liegen."),
        (|f| f.discharge_cutoff_voltage_mv = 3200, "Die Entladeschlussspannung muss unter der Nennspannung liegen."),
    ];
    for (change, message) in cases {
        let mut f = type_form();
        change(&mut f);
        assert_eq!(bad_request_message(validate_battery_type_form(&f)), message);
    }
}

#[test]
fn new_battery_types_are_checked_and_trimmed() {
    let form = CreateBatteryTypeForm {
        manufacturer: " EVE ".to_string(),
        model: " LF314".to_string(),
        chemistry: "LiFePO4 ".to_string(),
        nominal_voltage_mv: 3200,
        nominal_capacity_mah: 314000,
        charge_termination_voltage_mv: 0,
        discharge_cutoff_voltage_mv: 0,
    };
    let v = check_create_battery_type(&form).unwrap();
    assert_eq!(v.manufacturer, "EVE");
    assert_eq!(v.model, "LF314");
    assert_eq!(v.chemistry, "LiFePO4");
    let no_chemistry = CreateBatteryTypeForm { chemistry: " ".to_string(), ..form };
    let e = check_create_battery_type(&no_chemistry).unwrap_err();
    assert_eq!(e.message(), "Die Zellchemie muss ausgewählt werden.");
}

#[test]
fn paths_and_not_found_answers() {
    assert_eq!(battery_type_path(12), "/battery-types/12");
    assert_eq!(battery_type_path(-3), "/battery-types/-3");
    assert_eq!(battery_path("eve-1"), "/batteries/eve-1");
    let e = battery_not_found("eve-1");
    assert_eq!(e.status(), HttpStatus::NotFound);
    assert_eq!(e.message(), "Die Batterie 'eve-1' wurde nicht gefunden.");
    assert_eq!(battery_type_not_found(4).message(), "Der Batterietyp 4 wurde nicht gefunden.");
}

#[test]
fn error_pages() {
    let e = AppError::bad_request("Falsch.");
    assert_eq!(e.heading(), "Ungültige Eingabe");
    assert_eq!(e.back_link(), ("/battery-types/new", "Zurück zum Formular"));
    let page = e.page_html();
    assert!(page.contains("<title>Ungültige Eingabe – Open battery forge</title>"));
    assert!(page.contains("<p>Falsch.</p>"));
    assert!(page.contains("<a href=\"/battery-types/new\">Zurück zum Formular</a>"));
    let i = AppError::internal();
    assert_eq!(i.status().code(), 500);
    assert_eq!(i.message(), "Die Anfrage konnte nicht verarbeitet werden.");
    assert_eq!(i.back_link(), ("/", "Zurück zur Startseite"));
    assert_eq!(AppError::not_found("x").back_link().0, "/battery-types");
    assert_eq!(AppError::not_found("x").status().code(), 404);
}
