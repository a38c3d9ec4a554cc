//! The sensor poller's per-cycle decision.
//!
//! Each cycle the poller asks the sensor collaborator for one sample and
//! hands the outcome to [`poll_step`]; it then sleeps for the fixed
//! interval regardless of success or failure.  A sensing failure is
//! logged by the caller and is never fatal.

use vstd::prelude::*;
use crate::cell::MeasurementCell;
use crate::event::Event;
use crate::measurement::Measurement;

verus! {

/// Seconds between two polls of the sensor.
pub const POLL_INTERVAL_SECS: u64 = 300;

/// Applies one poll outcome: on success the sample is written whole into
/// the shared cell and exactly one `NewMeasurement` event is owed to the
/// channel; on failure nothing is written and no event is owed.
///
/// The returned event is sent best-effort: if the channel's receiver is
/// gone the caller drops the send failure silently.
pub fn poll_step<E>(cell: &MeasurementCell, outcome: Result<Measurement, E>) -> (evt: Option<
    Event,
>)
    ensures
        outcome is Ok ==> evt == Some(Event::NewMeasurement),
        outcome is Err ==> evt is None,
{
    match outcome {
        Ok(m) => {
            cell.write(m);
            Some(Event::NewMeasurement)
        },
        Err(_) => None,
    }
}

} // verus!
