//! Rows of the event log, the outbox that live streams are fed from.
use crate::context::Id;
use crate::json::Json;
use vstd::prelude::*;

verus! {

/// An event, as it is written to the event log with the change it reports.
#[derive(Debug)]
pub struct EventRow {
    pub tenant_id: String,
    pub board_id: Id,
    pub event_type: &'static str,
    pub payload: Json,
}

} // verus!
