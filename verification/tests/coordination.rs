use airnode::cell::MeasurementCell;
use airnode::color::Color;
use airnode::event::Event;
use airnode::measurement::Measurement;
use airnode::poller::poll_step;
use airnode::poller::POLL_INTERVAL_SECS;
use airnode::reactor::react;
use airnode::reactor::react_to;
use airnode::reactor::startup_color;
use airnode::reactor::Action;
use airnode::reactor::QoS;
use airnode::reactor::StartupPhase;
use airnode::reactor::BLINK_DELAY_MS;
use airnode::reactor::RESTART_DELAY_MS;
use airnode::responder::respond;

const ROOT: &str = "esp32/AB:0D:EF:12:34:56";

#[test]
fn write_then_read_gives_the_whole_sample() {
    let cell = MeasurementCell::new();
    assert_eq!(cell.read(), None);
    let m = Measurement::new(123, 45);
    cell.write(m);
    assert_eq!(cell.read(), Some(m));
    let m2 = Measurement::new(7, 8);
    cell.write(m2);
    assert_eq!(cell.read(), Some(m2));
}

#[test]
fn successful_poll_writes_cell_and_owes_one_event() {
    let cell = MeasurementCell::new();
    let m = Measurement::new(123, 45);
    let evt = poll_step::<()>(&cell, Ok(m));
    assert_eq!(evt, Some(Event::NewMeasurement));
    assert_eq!(cell.read(), Some(m));
}

#[test]
fn failed_poll_leaves_cell_and_channel_untouched() {
    let cell = MeasurementCell::new();
    let evt = poll_step(&cell, Err("sensor timed out"));
    assert_eq!(evt, None);
    assert_eq!(cell.read(), None);

    let m = Measurement::new(123, 45);
    cell.write(m);
    let evt = poll_step(&cell, Err("sensor timed out"));
    assert_eq!(evt, None);
    assert_eq!(cell.read(), Some(m));
}

#[test]
fn tick_drives_three_indicator_changes_in_fixed_order() {
    let acts = react(Event::Tick, None, ROOT);
    assert_eq!(acts.len(), 6);
    let expected = [Color::Green, Color::Blue, Color::Black];
    for (i, color) in expected.iter().enumerate() {
        match &acts[2 * i] {
            Action::SetIndicator(c) => assert_eq!(c, color),
            other => panic!("expected an indicator change, got {other:?}"),
        }
        match &acts[2 * i + 1] {
            Action::Pause(ms) => assert_eq!(*ms, BLINK_DELAY_MS),
            other => panic!("expected a pause, got {other:?}"),
        }
    }
}

#[test]
fn tick_reaction_ignores_concurrent_sensing_state() {
    let cell = MeasurementCell::new();
    let before = react_to(&cell, Event::Tick, ROOT);
    cell.write(Measurement::new(123, 45));
    let after = react_to(&cell, Event::Tick, ROOT);
    assert_eq!(before.len(), 6);
    assert_eq!(after.len(), 6);
}

#[test]
fn new_measurement_publishes_exactly_two_retained_messages() {
    let m = Measurement::new(123, 45);
    let acts = react(Event::NewMeasurement, Some(m), ROOT);
    assert_eq!(acts.len(), 2);
    match &acts[0] {
        Action::Publish(p) => {
            assert_eq!(p.topic, "esp32/AB:0D:EF:12:34:56/PM25");
            assert_eq!(p.payload, "12.3");
            assert_eq!(p.qos, QoS::AtLeastOnce);
            assert!(p.retain);
        }
        other => panic!("expected a publish, got {other:?}"),
    }
    match &acts[1] {
        Action::Publish(p) => {
            assert_eq!(p.topic, "esp32/AB:0D:EF:12:34:56/PM10");
            assert_eq!(p.payload, "4.5");
            assert_eq!(p.qos, QoS::AtLeastOnce);
            assert!(p.retain);
        }
        other => panic!("expected a publish, got {other:?}"),
    }
}

#[test]
fn new_measurement_with_empty_cell_publishes_nothing() {
    let acts = react(Event::NewMeasurement, None, ROOT);
    assert_eq!(acts.len(), 0);
    let cell = MeasurementCell::new();
    let acts = react_to(&cell, Event::NewMeasurement, ROOT);
    assert_eq!(acts.len(), 0);
}

#[test]
fn end_to_end_poll_then_publish() {
    // The poller measures PM2.5 = 123 and PM10 = 45 (tenths); the reactor
    // receives the event, re-reads the cell and publishes 12.3 and 4.5.
    let cell = MeasurementCell::new();
    let evt = poll_step::<()>(&cell, Ok(Measurement::new(123, 45)));
    let acts = react_to(&cell, evt.unwrap(), ROOT);
    let published: Vec<(String, String, bool)> = acts
        .iter()
        .map(|a| match a {
            Action::Publish(p) => (p.topic.clone(), p.payload.clone(), p.retain),
            other => panic!("expected only publishes, got {other:?}"),
        })
        .collect();
    assert_eq!(
        published,
        vec![
            ("esp32/AB:0D:EF:12:34:56/PM25".to_string(), "12.3".to_string(), true),
            ("esp32/AB:0D:EF:12:34:56/PM10".to_string(), "4.5".to_string(), true),
        ]
    );
}

#[test]
fn responder_before_any_measurement_reads_placeholder() {
    let cell = MeasurementCell::new();
    let body = respond(&cell);
    assert!(body.contains("No measure"));
    assert!(!body.contains("PM25="));
}

#[test]
fn responder_after_write_reads_the_sample() {
    let cell = MeasurementCell::new();
    cell.write(Measurement::new(123, 45));
    let body = respond(&cell);
    assert!(body.contains("PM10=4.5 PM25=12.3"));
}

#[test]
fn startup_colors_and_restart_delay() {
    // A fatal error ends the session; after the fixed delay a new session
    // starts over from the booting indicator state.
    assert_eq!(startup_color(StartupPhase::Booting), Color::Red);
    assert_eq!(startup_color(StartupPhase::SensorInit), Color::Orange);
    assert_eq!(startup_color(StartupPhase::NetworkError), Color::Red);
    assert_eq!(startup_color(StartupPhase::Ready), Color::Green);
    assert_eq!(RESTART_DELAY_MS, 1000);
}

#[test]
fn indicator_component_values() {
    assert_eq!(Color::Red.rgb(), (100, 0, 0));
    assert_eq!(Color::Orange.rgb(), (255, 100, 0));
    assert_eq!(Color::Green.rgb(), (0, 50, 0));
    assert_eq!(Color::Blue.rgb(), (0, 0, 50));
    assert_eq!(Color::Black.rgb(), (0, 0, 0));
}

#[test]
fn cadences() {
    assert_eq!(POLL_INTERVAL_SECS, 300);
    assert_eq!(BLINK_DELAY_MS, 50);
}
