//! A ghost model of the coordination core, and the laws that hold of it.
//!
//! The model abstracts the shared cell to its contents and the event
//! channel to the sequence of events it still carries.  Each concurrent
//! activity contributes one kind of [`Step`]; interleaving is any
//! sequence of steps.  The laws below say what every interleaving
//! preserves: a failed poll changes nothing, a successful poll appends
//! exactly one event and stays visible to readers until the next write,
//! and a reader can only ever observe the initial absence or a value
//! some successful poll wrote whole.

use vstd::prelude::*;
use crate::event::Event;
use crate::measurement::Measurement;

verus! {

/// The abstract state: the cell's contents and the events still queued.
pub struct CoreModel {
    pub cell: Option<Measurement>,
    pub queue: Seq<Event>,
}

/// One transition of one activity.
pub enum Step {
    /// The poller's cycle succeeded with sample `m`.
    PollOk(Measurement),
    /// The poller's cycle failed.
    PollFail,
    /// The ticker fired.
    Tick,
    /// The reactor consumed the front event, if any.
    Consume,
}

/// The state at session start: empty cell, empty channel.
pub open spec fn spec_init() -> CoreModel {
    CoreModel { cell: None, queue: Seq::empty() }
}

/// The effect of one step.
pub open spec fn spec_step(s: CoreModel, st: Step) -> CoreModel {
    match st {
        Step::PollOk(m) => CoreModel { cell: Some(m), queue: s.queue.push(Event::NewMeasurement) },
        Step::PollFail => s,
        Step::Tick => CoreModel { cell: s.cell, queue: s.queue.push(Event::Tick) },
        Step::Consume => if s.queue.len() == 0 {
            s
        } else {
            CoreModel { cell: s.cell, queue: s.queue.drop_first() }
        },
    }
}

/// The state after running `steps` in order from `s`.
pub open spec fn spec_run(s: CoreModel, steps: Seq<Step>) -> CoreModel
    decreases steps.len(),
{
    if steps.len() == 0 {
        s
    } else {
        spec_run(spec_step(s, steps[0]), steps.drop_first())
    }
}

/// Whether a step writes the cell.
pub open spec fn spec_writes_cell(st: Step) -> bool {
    st is PollOk
}

/// Steps that do not write the cell — ticks, consumptions, failed polls —
/// leave its contents exactly as they were.
pub proof fn lemma_readers_preserve_cell(s: CoreModel, steps: Seq<Step>)
    requires
        forall|i: int| 0 <= i < steps.len() ==> !spec_writes_cell(#[trigger] steps[i]),
    ensures
        spec_run(s, steps).cell == s.cell,
    decreases steps.len(),
{
    if steps.len() > 0 {
        assert(!spec_writes_cell(steps[0]));
        let rest = steps.drop_first();
        assert forall|i: int| 0 <= i < rest.len() implies !spec_writes_cell(#[trigger] rest[i]) by {
            assert(rest[i] == steps[i + 1]);
        }
        lemma_readers_preserve_cell(spec_step(s, steps[0]), rest);
    }
}

/// Read-after-write visibility: a successful poll appends exactly one
/// `NewMeasurement` event to the channel and leaves its sample in the
/// cell; the sample is still there after any later steps that do not
/// write the cell, so the reactor reads that same value when it comes to
/// process the event.
pub proof fn lemma_poll_visibility(s: CoreModel, m: Measurement, later: Seq<Step>)
    requires
        forall|i: int| 0 <= i < later.len() ==> !spec_writes_cell(#[trigger] later[i]),
    ensures
        spec_step(s, Step::PollOk(m)).queue == s.queue.push(Event::NewMeasurement),
        spec_step(s, Step::PollOk(m)).cell == Some(m),
        spec_run(spec_step(s, Step::PollOk(m)), later).cell == Some(m),
{
    lemma_readers_preserve_cell(spec_step(s, Step::PollOk(m)), later);
}

/// A failed poll cycle leaves the cell and the channel untouched; the
/// poller simply proceeds to its next sleep.
pub proof fn lemma_poll_failure_untouched(s: CoreModel)
    ensures
        spec_step(s, Step::PollFail).cell == s.cell,
        spec_step(s, Step::PollFail).queue == s.queue,
{
}

/// Write/read atomicity: whatever the interleaving, a reader observes
/// either "no measurement yet" or exactly a sample some successful poll
/// wrote whole — never a value no write produced.
pub proof fn lemma_no_torn_reads(steps: Seq<Step>, m: Measurement)
    requires
        spec_run(spec_init(), steps).cell == Some(m),
    ensures
        exists|i: int| 0 <= i < steps.len() && #[trigger] steps[i] == Step::PollOk(m),
{
    lemma_cell_provenance(spec_init(), steps, m);
}

/// Generalization for the induction: a sample observed after `steps`
/// was either there at the start or written by one of the steps.
pub proof fn lemma_cell_provenance(s: CoreModel, steps: Seq<Step>, m: Measurement)
    requires
        spec_run(s, steps).cell == Some(m),
    ensures
        s.cell == Some(m) || exists|i: int|
            0 <= i < steps.len() && #[trigger] steps[i] == Step::PollOk(m),
    decreases steps.len(),
{
    if steps.len() > 0 {
        let rest = steps.drop_first();
        let s1 = spec_step(s, steps[0]);
        lemma_cell_provenance(s1, rest, m);
        if s1.cell == Some::<Measurement>(m) && s.cell != Some::<Measurement>(m) {
            assert(steps[0] == Step::PollOk(m));
        } else if exists|j: int| 0 <= j < rest.len() && #[trigger] rest[j] == Step::PollOk(m) {
            let j = choose|j: int| 0 <= j < rest.len() && #[trigger] rest[j] == Step::PollOk(m);
            assert(steps[j + 1] == Step::PollOk(m));
        }
    }
}

} // verus!
