//! A lighter snapshot of a gamepad, for sources whose buttons are only up or
//! down: the axes and one flag per button.
//!
//! The monitor does not use these: it tracks a [`GamepadState`], which also
//! holds how far each button is pressed, and reports
//! [`GamepadStateChange`]s. A [`Snapshot`] differs from another as the two
//! states without button values do.
//!
//! [`GamepadState`]: crate::gamepad::GamepadState

use crate::float_bits::ZERO;
use crate::gamepad::{
    lemma_unchanged_since_self, Channel, GamepadStateChange, GamepadStateView, RawGamepad,
};
use vstd::prelude::*;

verus! {

/// A change between two snapshots.
#[derive(Debug, PartialEq, Eq, Clone, Copy, Structural)]
pub enum Change {
    /// An axis was moved. (axis index, bits of the value)
    Axis(usize, u64),
    /// A button was pressed or released. (button index, pressed)
    Button(usize, bool),
}

impl Change {
    /// The same change as a change of a full state.
    pub open spec fn of_state(self) -> GamepadStateChange {
        match self {
            Change::Axis(index, value) => GamepadStateChange::Axis(index, value),
            Change::Button(index, pressed) => GamepadStateChange::Button(index, pressed),
        }
    }
}

/// The axes and pressed flags of a gamepad at one instant.
#[derive(Debug, PartialEq, Eq, Clone)]
pub struct Snapshot {
    /// Bits of the time of the reading.
    pub timestamp: u64,
    /// Bits of the value of each axis.
    pub axes: Vec<u64>,
    /// Whether each button is pressed.
    pub buttons: Vec<bool>,
}

/// The mathematical content of a [`Snapshot`].
pub struct SnapshotView {
    /// Bits of the time of the reading.
    pub timestamp: u64,
    /// Bits of the value of each axis.
    pub axes: Seq<u64>,
    /// Whether each button is pressed.
    pub buttons: Seq<bool>,
}

impl View for Snapshot {
    type V = SnapshotView;

    open spec fn view(&self) -> SnapshotView {
        SnapshotView { timestamp: self.timestamp, axes: self.axes@, buttons: self.buttons@ }
    }
}

impl SnapshotView {
    /// The snapshot of `axes` axes at rest and `buttons` released buttons.
    pub open spec fn resting(timestamp: u64, axes: nat, buttons: nat) -> SnapshotView {
        SnapshotView {
            timestamp,
            axes: Seq::new(axes, |i: int| ZERO),
            buttons: Seq::new(buttons, |i: int| false),
        }
    }

    /// The full state with the same axes and pressed flags, and every button
    /// value at rest.
    pub open spec fn state(self) -> GamepadStateView {
        GamepadStateView {
            timestamp: self.timestamp,
            axes: self.axes,
            buttons: self.buttons.map_values(|pressed: bool| (pressed, ZERO)),
        }
    }

    /// The axes among the first `n` whose bits are not those of `previous`,
    /// each with its bits in `self`, by ascending index.
    pub open spec fn moved_axes(self, previous: Self, n: nat) -> Seq<Change>
        decreases n,
    {
        if n == 0 {
            Seq::empty()
        } else {
            let i = n - 1;
            let earlier = self.moved_axes(previous, i as nat);
            if self.axes[i] != previous.axes[i] {
                earlier.push(Change::Axis(i as usize, self.axes[i]))
            } else {
                earlier
            }
        }
    }

    /// The buttons among the first `n` whose flag is not that of `previous`,
    /// each with its flag in `self`, by ascending index.
    pub open spec fn switched_buttons(self, previous: Self, n: nat) -> Seq<Change>
        decreases n,
    {
        if n == 0 {
            Seq::empty()
        } else {
            let i = n - 1;
            let earlier = self.switched_buttons(previous, i as nat);
            if self.buttons[i] != previous.buttons[i] {
                earlier.push(Change::Button(i as usize, self.buttons[i]))
            } else {
                earlier
            }
        }
    }

    /// The changes that lead from `previous` to `self`: those of the axes,
    /// then those of the buttons. Entries that only one of the two snapshots
    /// has are not compared.
    pub open spec fn diff(self, previous: Self) -> Seq<Change> {
        self.moved_axes(previous, self.state().shared_width(previous.state(), Channel::Axis))
            + self.switched_buttons(
            previous,
            self.state().shared_width(previous.state(), Channel::Button),
        )
    }
}

impl Snapshot {
    /// A snapshot with every axis at rest and every button released.
    pub fn new(timestamp: u64, axes_count: usize, button_count: usize) -> (snapshot: Self)
        ensures
            snapshot@ == SnapshotView::resting(timestamp, axes_count as nat, button_count as nat),
    {
        let snapshot = Self {
            timestamp,
            axes: vec![ZERO; axes_count],
            buttons: vec![false; button_count],
        };
        assert(snapshot@.axes =~= Seq::new(axes_count as nat, |i: int| ZERO));
        assert(snapshot@.buttons =~= Seq::new(button_count as nat, |i: int| false));
        snapshot
    }

    /// Set all axes/buttons to 0.0/unpressed.
    pub fn clear(&mut self)
        ensures
            final(self)@ == SnapshotView::resting(
                old(self)@.timestamp,
                old(self)@.axes.len(),
                old(self)@.buttons.len(),
            ),
    {
        let mut i: usize = 0;
        while i < self.axes.len()
            invariant
                i <= self.axes.len(),
                self.timestamp == old(self).timestamp,
                self.buttons == old(self).buttons,
                self.axes.len() == old(self).axes.len(),
                forall|k: int| 0 <= k < i ==> self.axes[k] == ZERO,
            decreases self.axes.len() - i,
        {
            self.axes[i] = ZERO;
            i += 1;
        }
        let mut j: usize = 0;
        while j < self.buttons.len()
            invariant
                j <= self.buttons.len(),
                self.timestamp == old(self).timestamp,
                self.axes@ == Seq::new(old(self)@.axes.len(), |i: int| ZERO),
                self.buttons.len() == old(self).buttons.len(),
                forall|k: int| 0 <= k < j ==> self.buttons[k] == false,
            decreases self.buttons.len() - j,
        {
            self.buttons[j] = false;
            j += 1;
        }
        assert(self@.buttons =~= Seq::new(old(self)@.buttons.len(), |i: int| false));
    }

    /// Find the changes in this snapshot, compared to a previous one.
    pub fn diff(&self, previous: &Self) -> (changes: Vec<Change>)
        ensures
            changes@ == self@.diff(previous@),
    {
        let axes: usize = if self.axes.len() <= previous.axes.len() {
            self.axes.len()
        } else {
            previous.axes.len()
        };
        let buttons: usize = if self.buttons.len() <= previous.buttons.len() {
            self.buttons.len()
        } else {
            previous.buttons.len()
        };
        let mut changes: Vec<Change> = Vec::new();
        let mut i: usize = 0;
        while i < axes
            invariant
                i <= axes,
                axes <= self@.axes.len(),
                axes <= previous@.axes.len(),
                changes@ == self@.moved_axes(previous@, i as nat),
            decreases axes - i,
        {
            if self.axes[i] != previous.axes[i] {
                changes.push(Change::Axis(i, self.axes[i]));
            }
            i += 1;
        }
        let ghost moved = changes@;
        let mut j: usize = 0;
        while j < buttons
            invariant
                j <= buttons,
                buttons <= self@.buttons.len(),
                buttons <= previous@.buttons.len(),
                changes@ == moved + self@.switched_buttons(previous@, j as nat),
            decreases buttons - j,
        {
            if self.buttons[j] != previous.buttons[j] {
                changes.push(Change::Button(j, self.buttons[j]));
            }
            j += 1;
        }
        changes
    }
}

impl<'a> From<&'a RawGamepad> for Snapshot {
    /// Snapshot the axes and the pressed flags a reading shows.
    fn from(pad: &'a RawGamepad) -> (snapshot: Self)
        ensures
            snapshot@ == (SnapshotView {
                timestamp: pad@.timestamp,
                axes: pad@.axes,
                buttons: pad@.buttons.map_values(|button: (bool, u64)| button.0),
            }),
    {
        let mut buttons: Vec<bool> = Vec::new();
        let mut i: usize = 0;
        while i < pad.buttons.len()
            invariant
                i <= pad.buttons.len(),
                buttons@ == pad.buttons@.take(i as int).map_values(|button: (bool, u64)| button.0),
            decreases pad.buttons.len() - i,
        {
            buttons.push(pad.buttons[i].0);
            i += 1;
        }
        assert(pad.buttons@.take(i as int) =~= pad.buttons@);
        let snapshot = Self { timestamp: pad.timestamp, axes: pad.axes.clone(), buttons };
        snapshot
    }
}

impl<'a> vstd::std_specs::convert::FromSpecImpl<&'a RawGamepad> for Snapshot {
    /// The result is stated over views: the vectors are built, not given.
    open spec fn obeys_from_spec() -> bool {
        false
    }

    open spec fn from_spec(pad: &'a RawGamepad) -> Self {
        choose|snapshot: Snapshot|
            snapshot@ == (SnapshotView {
                timestamp: pad@.timestamp,
                axes: pad@.axes,
                buttons: pad@.buttons.map_values(|button: (bool, u64)| button.0),
            })
    }
}

/// The moved axes of two snapshots are the axis changes of their states.
proof fn lemma_moved_axes(a: SnapshotView, b: SnapshotView, n: nat)
    ensures
        a.state().channel_changes(b.state(), Channel::Axis, n) == a.moved_axes(b, n).map_values(
            |change: Change| change.of_state(),
        ),
    decreases n,
{
    if n > 0 {
        lemma_moved_axes(a, b, (n - 1) as nat);
    }
}

/// The switched buttons of two snapshots are the changes of the pressed flags
/// of their states, and the button values of their states do not change.
proof fn lemma_switched_buttons(a: SnapshotView, b: SnapshotView, n: nat)
    requires
        n <= a.buttons.len(),
        n <= b.buttons.len(),
    ensures
        a.state().channel_changes(b.state(), Channel::Button, n) == a.switched_buttons(
            b,
            n,
        ).map_values(|change: Change| change.of_state()),
        a.state().channel_changes(b.state(), Channel::ButtonValue, n) == Seq::<
            GamepadStateChange,
        >::empty(),
    decreases n,
{
    if n > 0 {
        lemma_switched_buttons(a, b, (n - 1) as nat);
    }
}

/// Two snapshots differ as their full states do: the changes between the
/// states are the changes between the snapshots, one for one and in the same
/// order. What holds of the changes between states holds of these.
pub proof fn lemma_diff_as_states(current: SnapshotView, previous: SnapshotView)
    ensures
        current.state().changes_since(previous.state()) == current.diff(previous).map_values(
            |change: Change| change.of_state(),
        ),
{
    let axes = current.state().shared_width(previous.state(), Channel::Axis);
    let buttons = current.state().shared_width(previous.state(), Channel::Button);
    lemma_moved_axes(current, previous, axes);
    lemma_switched_buttons(current, previous, buttons);
}

/// Comparing a snapshot with itself yields no change.
pub proof fn lemma_diff_of_self(snapshot: SnapshotView)
    ensures
        snapshot.diff(snapshot) == Seq::<Change>::empty(),
{
    lemma_diff_as_states(snapshot, snapshot);
    lemma_unchanged_since_self(snapshot.state());
    assert(snapshot.diff(snapshot).map_values(|change: Change| change.of_state()).len() == 0);
}

} // verus!
