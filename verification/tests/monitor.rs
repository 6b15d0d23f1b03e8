use gamepad_web::{
    Axis, Button, Event, EventData, GamepadDescription, GamepadMappingType, GamepadState,
    MappedEvent, Monitor, RawGamepad,
};
use std::rc::Rc;

fn bits(value: f64) -> u64 {
    value.to_bits()
}

fn raw(
    mapping: GamepadMappingType,
    timestamp: f64,
    axes: &[f64],
    buttons: &[(bool, f64)],
) -> RawGamepad {
    RawGamepad {
        index: 0,
        name: "pad".into(),
        mapping,
        timestamp: bits(timestamp),
        axes: axes.iter().map(|v| bits(*v)).collect(),
        buttons: buttons.iter().map(|(p, v)| (*p, bits(*v))).collect(),
    }
}

fn named(index: i32, name: &str, timestamp: f64) -> RawGamepad {
    RawGamepad {
        index,
        name: name.into(),
        mapping: GamepadMappingType::NoMapping,
        timestamp: bits(timestamp),
        axes: vec![bits(0.0)],
        buttons: vec![(false, bits(0.0))],
    }
}

fn drain(monitor: &mut Monitor, report: &Vec<Option<RawGamepad>>) -> Vec<Event> {
    let mut events = Vec::new();
    while let Some(event) = monitor.poll(report) {
        events.push(event);
    }
    events
}

fn data(events: &[Event]) -> Vec<EventData> {
    events.iter().map(|event| event.data).collect()
}

#[test]
fn new_monitor_tracks_nothing() {
    let mut monitor = Monitor::new();
    assert!(monitor.needs_update());
    assert!(monitor.pad_description(0).is_none());
    assert!(monitor.pad_state(0).is_none());
    assert_eq!(monitor.poll(&vec![]), None);
    assert_eq!(monitor.poll_mapped(&vec![]), None);
}

#[test]
fn empty_slots_give_no_events() {
    let mut monitor = Monitor::new();
    let report = vec![None, None, None, None];
    assert_eq!(monitor.poll(&report), None);
    for slot in 0..5 {
        assert!(monitor.pad_description(slot).is_none());
        assert!(monitor.pad_state(slot).is_none());
    }
}

#[test]
fn connection_comes_before_the_input_of_the_first_reading() {
    let mut monitor = Monitor::new();
    let report =
        vec![Some(raw(GamepadMappingType::Standard, 10.0, &[0.5, 0.0], &[(true, 1.0)]))];
    let events = drain(&mut monitor, &report);
    assert_eq!(
        data(&events),
        vec![
            EventData::Connected,
            EventData::Axis(0, bits(0.5)),
            EventData::Button(0, true),
            EventData::ButtonValue(0, bits(1.0)),
        ]
    );
    let desc = GamepadDescription {
        index: 0,
        name: "pad".into(),
        mapping: GamepadMappingType::Standard,
        axis_count: 2,
        button_count: 1,
    };
    for event in events.iter() {
        assert_eq!(*event.gamepad, desc);
        assert!(Rc::ptr_eq(&event.gamepad, &events[0].gamepad));
    }
    assert_eq!(monitor.pad_description(0), Some(&desc));
    assert_eq!(
        monitor.pad_state(0),
        Some(&GamepadState {
            timestamp: bits(10.0),
            axes: vec![bits(0.5), bits(0.0)],
            buttons: vec![(true, bits(1.0))],
        })
    );
}

#[test]
fn device_at_rest_connects_without_input_events() {
    let mut monitor = Monitor::new();
    let report = vec![Some(raw(GamepadMappingType::Standard, 10.0, &[0.0, 0.0], &[(false, 0.0)]))];
    assert_eq!(data(&drain(&mut monitor, &report)), vec![EventData::Connected]);
}

#[test]
fn connect_then_disconnect() {
    let mut monitor = Monitor::new();
    let occupied = vec![Some(named(0, "pad", 1.0))];
    let absent = vec![None];

    let first = drain(&mut monitor, &occupied);
    assert_eq!(data(&first), vec![EventData::Connected]);
    assert!(monitor.pad_description(0).is_some());

    let second = drain(&mut monitor, &absent);
    assert_eq!(data(&second), vec![EventData::Disconnected]);
    assert!(Rc::ptr_eq(&first[0].gamepad, &second[0].gamepad));
    assert!(monitor.pad_description(0).is_none());
    assert!(monitor.pad_state(0).is_none());

    let third = drain(&mut monitor, &occupied);
    assert_eq!(data(&third), vec![EventData::Connected]);
    assert_eq!(*third[0].gamepad, *first[0].gamepad);
    assert!(!Rc::ptr_eq(&third[0].gamepad, &first[0].gamepad));
}

#[test]
fn session_is_bracketed_by_connection_and_disconnection() {
    let mut monitor = Monitor::new();
    let standard = GamepadMappingType::Standard;
    let reports = vec![
        vec![Some(raw(standard, 1.0, &[0.0, 0.0], &[(false, 0.0), (false, 0.0)]))],
        vec![Some(raw(standard, 2.0, &[0.5, 0.0], &[(false, 0.0), (false, 0.0)]))],
        vec![Some(raw(standard, 3.0, &[0.5, 0.0], &[(true, 1.0), (false, 0.0)]))],
        vec![Some(raw(standard, 4.0, &[0.0, -1.0], &[(false, 0.0), (true, 0.5)]))],
        vec![None],
    ];
    let mut events = Vec::new();
    for report in reports.iter() {
        events.extend(drain(&mut monitor, report));
    }
    assert_eq!(
        data(&events),
        vec![
            EventData::Connected,
            EventData::Axis(0, bits(0.5)),
            EventData::Button(0, true),
            EventData::ButtonValue(0, bits(1.0)),
            EventData::Axis(0, bits(0.0)),
            EventData::Axis(1, bits(-1.0)),
            EventData::Button(0, false),
            EventData::Button(1, true),
            EventData::ButtonValue(0, bits(0.0)),
            EventData::ButtonValue(1, bits(0.5)),
            EventData::Disconnected,
        ]
    );
    let connections = events.iter().filter(|e| e.data == EventData::Connected).count();
    let disconnections = events.iter().filter(|e| e.data == EventData::Disconnected).count();
    assert_eq!(connections, 1);
    assert_eq!(disconnections, 1);
    for event in events.iter() {
        assert!(Rc::ptr_eq(&event.gamepad, &events[0].gamepad));
    }
    assert!(monitor.pad_description(0).is_none());
}

#[test]
fn reading_with_the_same_timestamp_is_not_taken_in() {
    let mut monitor = Monitor::new();
    let standard = GamepadMappingType::Standard;
    let first = vec![Some(raw(standard, 5.0, &[0.25], &[]))];
    assert_eq!(
        data(&drain(&mut monitor, &first)),
        vec![EventData::Connected, EventData::Axis(0, bits(0.25))]
    );
    let same_time = vec![Some(raw(standard, 5.0, &[0.75], &[]))];
    assert_eq!(drain(&mut monitor, &same_time), vec![]);
    assert_eq!(monitor.pad_state(0).unwrap().axis(0), bits(0.25));

    let later = vec![Some(raw(standard, 6.0, &[0.75], &[]))];
    assert_eq!(data(&drain(&mut monitor, &later)), vec![EventData::Axis(0, bits(0.75))]);
    assert_eq!(monitor.pad_state(0).unwrap().axis(0), bits(0.75));
    assert_eq!(monitor.pad_state(0).unwrap().timestamp(), bits(6.0));
}

#[test]
fn timestamps_are_compared_as_numbers() {
    let mut monitor = Monitor::new();
    let standard = GamepadMappingType::Standard;
    let first = vec![Some(raw(standard, 0.0, &[0.25], &[]))];
    assert_eq!(drain(&mut monitor, &first).len(), 2);
    let negative_zero = vec![Some(raw(standard, -0.0, &[0.5], &[]))];
    assert_eq!(drain(&mut monitor, &negative_zero), vec![]);
    assert_eq!(monitor.pad_state(0).unwrap().axis(0), bits(0.25));
}

#[test]
fn first_reading_at_the_sentinel_timestamp_is_not_taken_in() {
    let mut monitor = Monitor::new();
    let report = vec![Some(raw(GamepadMappingType::Standard, -1.0, &[0.5], &[(true, 1.0)]))];
    assert_eq!(data(&drain(&mut monitor, &report)), vec![EventData::Connected]);
    assert_eq!(
        monitor.pad_state(0),
        Some(&GamepadState {
            timestamp: bits(-1.0),
            axes: vec![bits(0.0)],
            buttons: vec![(false, bits(0.0))],
        })
    );
}

#[test]
fn reading_without_a_timestamp_is_always_taken_in() {
    let mut monitor = Monitor::new();
    let standard = GamepadMappingType::Standard;
    let first = vec![Some(raw(standard, f64::NAN, &[0.25], &[]))];
    assert_eq!(
        data(&drain(&mut monitor, &first)),
        vec![EventData::Connected, EventData::Axis(0, bits(0.25))]
    );
    let second = vec![Some(raw(standard, f64::NAN, &[0.5], &[]))];
    assert_eq!(data(&drain(&mut monitor, &second)), vec![EventData::Axis(0, bits(0.5))]);
    assert_eq!(drain(&mut monitor, &second), vec![]);
}

#[test]
fn report_taken_in_twice_gives_nothing_the_second_time() {
    let mut monitor = Monitor::new();
    let report = vec![
        Some(named(0, "first", 3.0)),
        None,
        Some(raw(GamepadMappingType::Standard, f64::NAN, &[0.5], &[(true, 0.5)])),
    ];
    monitor.fetch_update(&report);
    assert!(!monitor.needs_update());
    let first = drain(&mut monitor, &report);
    assert_eq!(first.len(), 5);
    let descriptions: Vec<GamepadDescription> =
        (0..3).filter_map(|i| monitor.pad_description(i).cloned()).collect();
    let states: Vec<GamepadState> = (0..3).filter_map(|i| monitor.pad_state(i).cloned()).collect();

    monitor.fetch_update(&report);
    assert!(monitor.needs_update());
    assert_eq!(monitor.poll(&report), None);
    let descriptions_after: Vec<GamepadDescription> =
        (0..3).filter_map(|i| monitor.pad_description(i).cloned()).collect();
    let states_after: Vec<GamepadState> =
        (0..3).filter_map(|i| monitor.pad_state(i).cloned()).collect();
    assert_eq!(descriptions, descriptions_after);
    assert_eq!(states, states_after);
}

#[test]
fn poll_takes_a_report_in_only_when_the_queue_is_empty() {
    let mut monitor = Monitor::new();
    let standard = GamepadMappingType::Standard;
    let first = vec![Some(raw(standard, 1.0, &[0.5], &[]))];
    let other = vec![Some(raw(standard, 2.0, &[0.75], &[]))];

    assert_eq!(monitor.poll(&first).unwrap().data, EventData::Connected);
    assert!(!monitor.needs_update());
    assert_eq!(monitor.poll(&other).unwrap().data, EventData::Axis(0, bits(0.5)));
    assert!(monitor.needs_update());
    assert_eq!(monitor.pad_state(0).unwrap().timestamp(), bits(1.0));
    assert_eq!(monitor.poll(&other).unwrap().data, EventData::Axis(0, bits(0.75)));
    assert_eq!(monitor.pad_state(0).unwrap().timestamp(), bits(2.0));
    assert_eq!(monitor.poll(&other), None);
}

#[test]
fn fetch_update_queues_behind_waiting_events() {
    let mut monitor = Monitor::new();
    let standard = GamepadMappingType::Standard;
    monitor.fetch_update(&vec![Some(raw(standard, 1.0, &[0.5], &[]))]);
    monitor.fetch_update(&vec![Some(raw(standard, 2.0, &[0.75], &[]))]);
    monitor.fetch_update(&vec![None]);
    let events = drain(&mut monitor, &vec![None]);
    assert_eq!(
        data(&events),
        vec![
            EventData::Connected,
            EventData::Axis(0, bits(0.5)),
            EventData::Axis(0, bits(0.75)),
            EventData::Disconnected,
        ]
    );
}

#[test]
fn slots_are_reported_by_ascending_index() {
    let mut monitor = Monitor::new();
    let report = vec![
        Some(named(0, "zero", 1.0)),
        None,
        Some(named(2, "two", 1.0)),
        Some(named(3, "three", 1.0)),
    ];
    let events = drain(&mut monitor, &report);
    assert_eq!(data(&events), vec![EventData::Connected; 3]);
    let names: Vec<&str> = events.iter().map(|e| e.gamepad.name.as_str()).collect();
    assert_eq!(names, vec!["zero", "two", "three"]);
    let indices: Vec<i32> = events.iter().map(|e| e.gamepad.index).collect();
    assert_eq!(indices, vec![0, 2, 3]);
    assert!(monitor.pad_description(1).is_none());
    assert_eq!(monitor.pad_description(2).unwrap().name, "two");
}

#[test]
fn shrinking_report_disconnects_the_slots_that_go() {
    let mut monitor = Monitor::new();
    let wide = vec![
        Some(named(0, "zero", 1.0)),
        Some(named(1, "one", 1.0)),
        None,
        Some(named(3, "three", 1.0)),
    ];
    assert_eq!(drain(&mut monitor, &wide).len(), 3);

    let narrow = vec![Some(raw(GamepadMappingType::NoMapping, 2.0, &[0.5], &[(false, 0.0)]))];
    let events = drain(&mut monitor, &narrow);
    assert_eq!(
        data(&events),
        vec![EventData::Disconnected, EventData::Disconnected, EventData::Axis(0, bits(0.5))]
    );
    assert_eq!(events[0].gamepad.name, "one");
    assert_eq!(events[1].gamepad.name, "three");
    assert_eq!(events[2].gamepad.name, "zero");
    for slot in 1..5 {
        assert!(monitor.pad_description(slot).is_none());
        assert!(monitor.pad_state(slot).is_none());
    }
    assert!(monitor.pad_description(0).is_some());

    let empty: Vec<Option<RawGamepad>> = vec![];
    let events = drain(&mut monitor, &empty);
    assert_eq!(data(&events), vec![EventData::Disconnected]);
    assert_eq!(events[0].gamepad.name, "zero");
    assert!(monitor.pad_description(0).is_none());
}

#[test]
fn growing_report_adds_empty_slots() {
    let mut monitor = Monitor::new();
    assert_eq!(drain(&mut monitor, &vec![Some(named(0, "zero", 1.0))]).len(), 1);
    let wider = vec![Some(named(0, "zero", 1.0)), None, Some(named(2, "two", 1.0))];
    let events = drain(&mut monitor, &wider);
    assert_eq!(data(&events), vec![EventData::Connected]);
    assert_eq!(events[0].gamepad.name, "two");
    assert!(monitor.pad_description(1).is_none());
    assert_eq!(monitor.pad_description(2).unwrap().name, "two");
}

#[test]
fn description_stays_as_it_was_at_connection() {
    let mut monitor = Monitor::new();
    assert_eq!(drain(&mut monitor, &vec![Some(named(0, "before", 1.0))]).len(), 1);
    let renamed = RawGamepad {
        index: 7,
        name: "after".into(),
        mapping: GamepadMappingType::Standard,
        timestamp: bits(2.0),
        axes: vec![bits(0.5)],
        buttons: vec![(false, bits(0.0))],
    };
    let events = drain(&mut monitor, &vec![Some(renamed)]);
    assert_eq!(data(&events), vec![EventData::Axis(0, bits(0.5))]);
    assert_eq!(events[0].gamepad.name, "before");
    assert_eq!(events[0].gamepad.index, 0);
    assert_eq!(monitor.pad_description(0).unwrap().name, "before");
    assert_eq!(monitor.pad_description(0).unwrap().mapping, GamepadMappingType::NoMapping);
}

#[test]
fn accessors_do_not_advance_the_queue() {
    let mut monitor = Monitor::new();
    let report = vec![Some(raw(GamepadMappingType::Standard, 1.0, &[0.5], &[]))];
    monitor.fetch_update(&report);
    for _ in 0..3 {
        assert!(monitor.pad_description(0).is_some());
        assert!(monitor.pad_state(0).is_some());
        assert!(!monitor.needs_update());
    }
    assert_eq!(drain(&mut monitor, &report).len(), 2);
}

#[test]
fn poll_mapped_returns_named_input_only() {
    let mut monitor = Monitor::new();
    let standard = GamepadMappingType::Standard;
    let report = vec![Some(raw(
        standard,
        1.0,
        &[0.5, 0.0, 0.0, 0.0, 0.9],
        &[(true, 1.0), (false, 0.0)],
    ))];
    assert_eq!(monitor.poll_mapped(&report), Some(MappedEvent::Axis(Axis::LeftStickX, bits(0.5))));
    assert_eq!(monitor.poll_mapped(&report), Some(MappedEvent::ButtonPress(Button::South)));
    assert_eq!(
        monitor.poll_mapped(&report),
        Some(MappedEvent::ButtonValue(Button::South, bits(1.0)))
    );
    assert_eq!(monitor.poll_mapped(&report), None);
    assert!(monitor.needs_update());

    let released = vec![Some(raw(
        standard,
        2.0,
        &[0.5, 0.0, 0.0, 0.0, 0.9],
        &[(false, 1.0), (false, 0.0)],
    ))];
    assert_eq!(monitor.poll_mapped(&released), Some(MappedEvent::ButtonRelease(Button::South)));
    assert_eq!(monitor.poll_mapped(&released), None);
}

#[test]
fn poll_mapped_skips_what_is_queued_without_a_name() {
    let mut monitor = Monitor::new();
    let report = vec![
        Some(raw(GamepadMappingType::NoMapping, 1.0, &[0.5], &[(true, 1.0)])),
        Some(raw(GamepadMappingType::Standard, 1.0, &[0.0, 0.25], &[])),
    ];
    monitor.fetch_update(&report);
    assert_eq!(monitor.poll_mapped(&report), Some(MappedEvent::Axis(Axis::LeftStickY, bits(0.25))));
    assert!(monitor.needs_update());
    assert_eq!(monitor.poll_mapped(&report), None);
}

#[test]
fn poll_mapped_on_unknown_layout_returns_nothing() {
    let mut monitor = Monitor::new();
    let unknown = GamepadMappingType::NoMapping;
    let first = vec![Some(raw(unknown, 1.0, &[0.5, -0.5], &[(true, 1.0)]))];
    assert_eq!(monitor.poll_mapped(&first), None);
    assert!(monitor.needs_update());
    assert!(monitor.pad_description(0).is_some());
    assert_eq!(monitor.pad_state(0).unwrap().axis(0), bits(0.5));

    let second = vec![Some(raw(unknown, 2.0, &[0.0, 0.0], &[(false, 0.0)]))];
    assert_eq!(monitor.poll_mapped(&second), None);
    assert_eq!(monitor.poll_mapped(&vec![None]), None);
    assert!(monitor.pad_description(0).is_none());

    let mut raw_monitor = Monitor::new();
    assert_eq!(
        data(&drain(&mut raw_monitor, &first)),
        vec![
            EventData::Connected,
            EventData::Axis(0, bits(0.5)),
            EventData::Axis(1, bits(-0.5)),
            EventData::Button(0, true),
            EventData::ButtonValue(0, bits(1.0)),
        ]
    );
}

#[test]
fn reading_of_another_shape_is_compared_on_the_shared_entries() {
    let mut monitor = Monitor::new();
    let standard = GamepadMappingType::Standard;
    assert_eq!(
        drain(&mut monitor, &vec![Some(raw(standard, 1.0, &[0.0, 0.0], &[(false, 0.0)]))]).len(),
        1
    );
    let wider = vec![Some(raw(standard, 2.0, &[0.5, 0.0, 0.75], &[(true, 1.0), (true, 1.0)]))];
    assert_eq!(
        data(&drain(&mut monitor, &wider)),
        vec![
            EventData::Axis(0, bits(0.5)),
            EventData::Button(0, true),
            EventData::ButtonValue(0, bits(1.0)),
        ]
    );
    assert_eq!(monitor.pad_state(0).unwrap().axis_count(), 3);
    assert_eq!(monitor.pad_description(0).unwrap().axis_count, 2);
}
