use gamepad_web::{Change, GamepadMappingType, RawGamepad, Snapshot};

fn bits(value: f64) -> u64 {
    value.to_bits()
}

#[test]
fn test_snapshot_diff() {
    let empty = Snapshot::new(bits(0.0), 2, 2);

    assert_eq!(empty.diff(&empty), vec![]);

    let mut pressed0 = empty.clone();
    pressed0.buttons[0] = true;

    assert_eq!(pressed0.diff(&empty), vec![Change::Button(0, true)]);
    assert_eq!(empty.diff(&pressed0), vec![Change::Button(0, false)]);

    let mut pressed1 = empty.clone();
    pressed1.buttons[1] = true;

    let p1_diff0: Vec<_> = pressed1.diff(&pressed0);
    assert_eq!(p1_diff0.len(), 2);
    assert!(p1_diff0.contains(&Change::Button(0, false)));
    assert!(p1_diff0.contains(&Change::Button(1, true)));

    let p0_diff1: Vec<_> = pressed0.diff(&pressed1);
    assert_eq!(p0_diff1.len(), 2);
    assert!(p0_diff1.contains(&Change::Button(0, true)));
    assert!(p0_diff1.contains(&Change::Button(1, false)));

    let mut moved = empty.clone();
    moved.axes[0] = bits(0.125);
    moved.axes[1] = bits(-0.5);

    let m_diff_empty: Vec<_> = moved.diff(&empty);
    assert_eq!(m_diff_empty.len(), 2);
    assert!(m_diff_empty.contains(&Change::Axis(0, bits(0.125))));
    assert!(m_diff_empty.contains(&Change::Axis(1, bits(-0.5))));

    let m_diff_p1: Vec<_> = moved.diff(&pressed1);
    assert_eq!(m_diff_p1.len(), 3);
    assert!(m_diff_p1.contains(&Change::Button(1, false)));
    assert!(m_diff_p1.contains(&Change::Axis(0, bits(0.125))));
    assert!(m_diff_p1.contains(&Change::Axis(1, bits(-0.5))));

    let p1_diff_m: Vec<_> = pressed1.diff(&moved);
    assert_eq!(p1_diff_m.len(), 3);
    assert!(p1_diff_m.contains(&Change::Button(1, true)));
    assert!(p1_diff_m.contains(&Change::Axis(0, bits(0.0))));
    assert!(p1_diff_m.contains(&Change::Axis(1, bits(0.0))));
}

#[test]
fn new_snapshot_is_at_rest() {
    let snapshot = Snapshot::new(bits(7.0), 3, 2);
    assert_eq!(
        snapshot,
        Snapshot {
            timestamp: bits(7.0),
            axes: vec![bits(0.0); 3],
            buttons: vec![false; 2],
        }
    );
}

#[test]
fn clear_rests_every_entry_and_keeps_the_rest() {
    let mut snapshot = Snapshot {
        timestamp: bits(42.0),
        axes: vec![bits(0.5), bits(-1.0), bits(f64::NAN)],
        buttons: vec![true, false, true, true],
    };
    snapshot.clear();
    assert_eq!(
        snapshot,
        Snapshot {
            timestamp: bits(42.0),
            axes: vec![bits(0.0); 3],
            buttons: vec![false; 4],
        }
    );
}

#[test]
fn snapshot_diff_lists_axes_then_buttons() {
    let previous = Snapshot::new(bits(0.0), 2, 3);
    let current = Snapshot {
        timestamp: bits(1.0),
        axes: vec![bits(0.0), bits(1.0)],
        buttons: vec![true, false, true],
    };
    assert_eq!(
        current.diff(&previous),
        vec![Change::Axis(1, bits(1.0)), Change::Button(0, true), Change::Button(2, true)]
    );
}

#[test]
fn snapshot_diff_is_by_bit_pattern() {
    let zero = Snapshot { timestamp: bits(0.0), axes: vec![bits(0.0)], buttons: vec![] };
    let negative_zero = Snapshot { timestamp: bits(0.0), axes: vec![bits(-0.0)], buttons: vec![] };
    let nan = Snapshot { timestamp: bits(0.0), axes: vec![bits(f64::NAN)], buttons: vec![] };
    assert_eq!(negative_zero.diff(&zero), vec![Change::Axis(0, bits(-0.0))]);
    assert_eq!(nan.diff(&nan), vec![]);
}

#[test]
fn snapshot_is_taken_from_a_reading() {
    let raw = RawGamepad {
        index: 1,
        name: "pad".into(),
        mapping: GamepadMappingType::Standard,
        timestamp: bits(5.0),
        axes: vec![bits(0.5), bits(-0.25)],
        buttons: vec![(true, bits(1.0)), (false, bits(0.3)), (true, bits(0.0))],
    };
    assert_eq!(
        Snapshot::from(&raw),
        Snapshot {
            timestamp: bits(5.0),
            axes: vec![bits(0.5), bits(-0.25)],
            buttons: vec![true, false, true],
        }
    );
}
