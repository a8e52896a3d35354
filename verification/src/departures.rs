//! Departure records of a single station's departure board.

use vstd::prelude::*;
use crate::datetime::DateTime;

verus! {

/// One departure of a station's departure board.
#[derive(Clone, Debug)]
pub struct Departure {
    pub planned_departure_time: DateTime,
    pub realtime: bool,
    pub delay_in_minutes: Option<isize>,
    pub realtime_departure_time: DateTime,
    pub transport_type: String,
    pub label: String,
    pub network: String,
    pub train_type: String,
    pub destination: String,
    pub cancelled: bool,
    pub sev: bool,
    pub platform: Option<usize>,
    pub stop_position_number: Option<usize>,
    pub messages: Vec<String>,
    pub banner_hash: String,
    pub occupancy: String,
    pub stop_point_global_id: String,
}

} // verus!
