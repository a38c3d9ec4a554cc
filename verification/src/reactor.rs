//! The reactor: the single consumer of the event channel and the sole
//! authority over indicator changes and broker publishes.
//!
//! For each event the reactor decides a fixed sequence of side effects,
//! returned as [`Action`] values; the caller performs them in order on the
//! hardware and treats any driver or publish failure as fatal to the
//! session.  Because one consumer decides everything, light changes and
//! publishes never interleave.

use vstd::prelude::*;
use crate::cell::MeasurementCell;
use crate::color::Color;
use crate::event::Event;
use crate::measurement::Measurement;
use crate::text::spec_tenths;
use crate::text::tenths_string;
use crate::topic::pm10_topic;
use crate::topic::pm25_topic;

verus! {

/// Hold time between the steps of the liveness blink, in milliseconds.
pub const BLINK_DELAY_MS: u64 = 50;

/// Hold time of the "ready" pulse before the loop starts, in milliseconds.
pub const READY_PAUSE_MS: u64 = 1000;

/// Delay before a fatal error restarts the session, in milliseconds.
pub const RESTART_DELAY_MS: u64 = 1000;

/// Broker delivery guarantee requested for a publish.
#[derive(Clone, Copy, PartialEq, Eq, Structural, Debug)]
pub enum QoS {
    AtMostOnce,
    AtLeastOnce,
    ExactlyOnce,
}

/// One outbound broker message.
#[derive(Clone, Debug)]
pub struct Publication {
    pub topic: String,
    pub payload: String,
    pub qos: QoS,
    /// Asks the broker to keep the message as the topic's last known
    /// value for late subscribers.
    pub retain: bool,
}

/// One side effect the reactor asks its caller to perform.
#[derive(Clone, Debug)]
pub enum Action {
    /// Drive the indicator to a color.
    SetIndicator(Color),
    /// Hold for the given number of milliseconds.
    Pause(u64),
    /// Send one message to the broker.
    Publish(Publication),
}

/// The fixed liveness blink: active, secondary, off, each held for the
/// configured delay.
pub open spec fn spec_tick_actions() -> Seq<Action> {
    seq![
        Action::SetIndicator(Color::Green),
        Action::Pause(BLINK_DELAY_MS),
        Action::SetIndicator(Color::Blue),
        Action::Pause(BLINK_DELAY_MS),
        Action::SetIndicator(Color::Black),
        Action::Pause(BLINK_DELAY_MS),
    ]
}

/// `a` publishes exactly `tenths` (divided by ten) to `topic`, retained,
/// at least once.
pub open spec fn spec_is_publish(a: Action, topic: Seq<char>, tenths: nat) -> bool {
    &&& a matches Action::Publish(p)
    &&& p.topic@ == topic
    &&& p.payload@ == spec_tenths(tenths)
    &&& p.qos == QoS::AtLeastOnce
    &&& p.retain == true
}

/// The two publishes derived from sample `m` under `root`: PM2.5 then
/// PM10, each concentration divided by ten, and nothing else.
pub open spec fn spec_publish_actions(acts: Seq<Action>, m: Measurement, root: Seq<char>) -> bool {
    &&& acts.len() == 2
    &&& spec_is_publish(acts[0], root + "/PM25"@, m.pm25 as nat)
    &&& spec_is_publish(acts[1], root + "/PM10"@, m.pm10 as nat)
}

/// The reaction owed to `event` given the cell snapshot `reading`:
/// a `Tick` drives exactly the fixed blink; a `NewMeasurement` publishes
/// exactly the two derived readings, or nothing when the cell is still
/// empty.
pub open spec fn spec_reaction(
    acts: Seq<Action>,
    event: Event,
    reading: Option<Measurement>,
    root: Seq<char>,
) -> bool {
    match event {
        Event::Tick => acts == spec_tick_actions(),
        Event::NewMeasurement => match reading {
            None => acts.len() == 0,
            Some(m) => spec_publish_actions(acts, m, root),
        },
    }
}

/// Decides the side effects for one event, given the snapshot `reading`
/// of the shared cell and the per-device root topic.
pub fn react(event: Event, reading: Option<Measurement>, root: &str) -> (acts: Vec<Action>)
    ensures
        spec_reaction(acts@, event, reading, root@),
{
    let mut acts: Vec<Action> = Vec::new();
    match event {
        Event::Tick => {
            acts.push(Action::SetIndicator(Color::Green));
            acts.push(Action::Pause(BLINK_DELAY_MS));
            acts.push(Action::SetIndicator(Color::Blue));
            acts.push(Action::Pause(BLINK_DELAY_MS));
            acts.push(Action::SetIndicator(Color::Black));
            acts.push(Action::Pause(BLINK_DELAY_MS));
            proof {
                assert(acts@ =~= spec_tick_actions());
            }
        },
        Event::NewMeasurement => {
            match reading {
                None => {},
                Some(m) => {
                    let topic25 = pm25_topic(root);
                    let payload25 = tenths_string(m.pm25);
                    acts.push(
                        Action::Publish(
                            Publication {
                                topic: topic25,
                                payload: payload25,
                                qos: QoS::AtLeastOnce,
                                retain: true,
                            },
                        ),
                    );
                    let topic10 = pm10_topic(root);
                    let payload10 = tenths_string(m.pm10);
                    acts.push(
                        Action::Publish(
                            Publication {
                                topic: topic10,
                                payload: payload10,
                                qos: QoS::AtLeastOnce,
                                retain: true,
                            },
                        ),
                    );
                },
            }
        },
    }
    acts
}

/// Decides the side effects for one event, re-reading the shared cell —
/// deliberately, instead of carrying the value in the event — so the
/// latest sample wins even when several updates race ahead of
/// consumption.
pub fn react_to(cell: &MeasurementCell, event: Event, root: &str) -> (acts: Vec<Action>)
    ensures
        event is Tick ==> acts@ == spec_tick_actions(),
        exists|reading: Option<Measurement>|
            spec_reaction(acts@, event, reading, root@),
{
    let reading = match event {
        Event::Tick => None,
        Event::NewMeasurement => cell.read(),
    };
    let acts = react(event, reading, root);
    proof {
        assert(spec_reaction(acts@, event, reading, root@));
    }
    acts
}

/// Gross status the indicator communicates outside the event loop.
#[derive(Clone, Copy, PartialEq, Eq, Structural, Debug)]
pub enum StartupPhase {
    /// The session just (re)started.
    Booting,
    /// The sensor is being initialized.
    SensorInit,
    /// Network association failed; the session is about to abort.
    NetworkError,
    /// Network is up; brief pulse before the loop begins.
    Ready,
}

/// The color shown for each startup phase.
pub open spec fn spec_startup_color(p: StartupPhase) -> Color {
    match p {
        StartupPhase::Booting => Color::Red,
        StartupPhase::SensorInit => Color::Orange,
        StartupPhase::NetworkError => Color::Red,
        StartupPhase::Ready => Color::Green,
    }
}

/// Decides the indicator color for a startup phase.  Every session,
/// including one entered after a fatal restart, passes through `Booting`
/// first.
pub fn startup_color(p: StartupPhase) -> (c: Color)
    ensures
        c == spec_startup_color(p),
{
    match p {
        StartupPhase::Booting => Color::Red,
        StartupPhase::SensorInit => Color::Orange,
        StartupPhase::NetworkError => Color::Red,
        StartupPhase::Ready => Color::Green,
    }
}

} // verus!
