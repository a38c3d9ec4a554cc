//! Events carried from the periodic producers to the reactor.

use vstd::prelude::*;

verus! {

/// A signal delivered to the reactor over the event channel.
///
/// `Tick` carries no payload and drives the liveness blink.
/// `NewMeasurement` signals that the shared cell was updated; it carries
/// no payload either — the reactor re-reads the cell, so that the latest
/// value wins even if several updates race ahead of consumption.
#[derive(Clone, Copy, PartialEq, Eq, Structural, Debug)]
pub enum Event {
    Tick,
    NewMeasurement,
}

} // verus!
