use vstd::prelude::*;

verus! {

/// One row of the battery list: the battery with the data of its type.
#[derive(Debug, Clone)]
pub struct BatteryListItem {
    pub battery_id: String,
    pub battery_type_id: i64,
    pub manufacturer: String,
    pub model: String,
    pub chemistry: String,
    pub battery_notes: Option<String>,
    pub has_intake: bool,
}

} // verus!
