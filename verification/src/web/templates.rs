use vstd::prelude::*;

use crate::db_access::models::{Battery, BatteryIntake, BatteryType};
use crate::web::view_models::BatteryListItem;

verus! {

/// What the start page shows.
#[derive(Debug)]
pub struct IndexTemplate {
    pub title: &'static str,
}

/// What the list of battery types shows.
#[derive(Debug)]
pub struct BatteryTypesTemplate {
    pub title: &'static str,
    pub battery_types: Vec<BatteryType>,
}

/// What the form for a new battery type shows.
#[derive(Debug)]
pub struct NewBatteryTypeTemplate {
    pub title: &'static str,
    pub error: Option<String>,
}

/// What the page of one battery type shows.
#[derive(Debug)]
pub struct BatteryTypeDetailTemplate {
    pub title: &'static str,
    pub battery_type: BatteryType,
}

/// What the list of batteries shows.
#[derive(Debug)]
pub struct BatteriesTemplate {
    pub batteries: Vec<BatteryListItem>,
}

/// What the form for a new battery shows.
#[derive(Debug)]
pub struct NewBatteryTemplate {
    pub battery_types: Vec<BatteryType>,
}

/// What the page of one battery shows.
#[derive(Debug)]
pub struct BatteryDetailTemplate {
    pub battery: Battery,
    pub battery_type: BatteryType,
    pub battery_types: Vec<BatteryType>,
    pub intake: Option<BatteryIntake>,
}

} // verus!
