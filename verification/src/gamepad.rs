//! Controller readings, descriptions and states, and the changes between two
//! states.

use crate::float_bits::{BASELINE_TIMESTAMP, ZERO};
use crate::mapping::GamepadMappingType;
use vstd::prelude::*;

verus! {

/// A change in axis or button state.
#[derive(Debug, PartialEq, Eq, Clone, Copy, Structural)]
pub enum GamepadStateChange {
    /// An axis was moved. (axis index, bits of the value in [-1, 1])
    Axis(usize, u64),
    /// A button was pressed or released. (button index, pressed).
    Button(usize, bool),
    /// A button's value (the amount it is pressed) changed. (button index,
    /// bits of the value in [0, 1])
    ButtonValue(usize, u64),
}

/// The three kinds of input a state holds. Changes are reported channel by
/// channel, in this order.
#[derive(Debug, PartialEq, Eq, Clone, Copy, Structural)]
pub enum Channel {
    /// The position of each axis.
    Axis,
    /// Whether each button is held down.
    Button,
    /// How far each button is pressed.
    ButtonValue,
}

impl Channel {
    /// The place of the channel in the order of reporting.
    pub open spec fn rank(self) -> int {
        match self {
            Channel::Axis => 0,
            Channel::Button => 1,
            Channel::ButtonValue => 2,
        }
    }
}

impl GamepadStateChange {
    /// The channel on which the change happened.
    pub open spec fn channel(self) -> Channel {
        match self {
            GamepadStateChange::Axis(_, _) => Channel::Axis,
            GamepadStateChange::Button(_, _) => Channel::Button,
            GamepadStateChange::ButtonValue(_, _) => Channel::ButtonValue,
        }
    }

    /// The index of the axis or button that changed.
    pub open spec fn index(self) -> usize {
        match self {
            GamepadStateChange::Axis(i, _) => i,
            GamepadStateChange::Button(i, _) => i,
            GamepadStateChange::ButtonValue(i, _) => i,
        }
    }
}

/// One reading of a controller, as the controller source reports it.
#[derive(Debug, PartialEq, Eq, Clone)]
pub struct RawGamepad {
    /// The index the source gives the controller.
    pub index: i32,
    /// Some identifier for the controller.
    pub name: String,
    /// The button/axis layout the controller reports.
    pub mapping: GamepadMappingType,
    /// Bits of the time at which the controller last updated this reading.
    pub timestamp: u64,
    /// Bits of the value of each axis.
    pub axes: Vec<u64>,
    /// For each button, whether it is pressed and the bits of its value.
    pub buttons: Vec<(bool, u64)>,
}

/// The mathematical content of a [`RawGamepad`].
pub struct RawGamepadView {
    /// The index the source gives the controller.
    pub index: i32,
    /// The characters of the controller's identifier.
    pub name: Seq<char>,
    /// The layout the controller reports.
    pub mapping: GamepadMappingType,
    /// Bits of the time of the reading.
    pub timestamp: u64,
    /// Bits of the value of each axis.
    pub axes: Seq<u64>,
    /// The pressed flag and the bits of the value of each button.
    pub buttons: Seq<(bool, u64)>,
}

impl View for RawGamepad {
    type V = RawGamepadView;

    open spec fn view(&self) -> RawGamepadView {
        RawGamepadView {
            index: self.index,
            name: self.name@,
            mapping: self.mapping,
            timestamp: self.timestamp,
            axes: self.axes@,
            buttons: self.buttons@,
        }
    }
}

/// Information about a gamepad. Remains constant while the gamepad is connected.
#[derive(Debug, PartialEq, Eq, Clone)]
pub struct GamepadDescription {
    /// The index at which this gamepad connected.
    ///
    /// Increases from 0 as new gamepads are connected,
    /// though an index may be reused after its gamepad disconnects.
    pub index: i32,
    /// Some identifier for the controller.
    pub name: String,
    /// The button/axis mapping layout for this gamepad.
    pub mapping: GamepadMappingType,
    /// The number of axes this gamepad reports.
    pub axis_count: usize,
    /// The number of buttons this gamepad reports.
    pub button_count: usize,
}

/// The mathematical content of a [`GamepadDescription`].
pub struct GamepadDescriptionView {
    /// The index at which the gamepad connected.
    pub index: i32,
    /// The characters of the gamepad's identifier.
    pub name: Seq<char>,
    /// The layout of the gamepad.
    pub mapping: GamepadMappingType,
    /// The number of axes the gamepad had when it connected.
    pub axis_count: nat,
    /// The number of buttons the gamepad had when it connected.
    pub button_count: nat,
}

impl View for GamepadDescription {
    type V = GamepadDescriptionView;

    open spec fn view(&self) -> GamepadDescriptionView {
        GamepadDescriptionView {
            index: self.index,
            name: self.name@,
            mapping: self.mapping,
            axis_count: self.axis_count as nat,
            button_count: self.button_count as nat,
        }
    }
}

/// Snapshot of a gamepad's state at one instant.
#[derive(Debug, PartialEq, Eq, Clone)]
pub struct GamepadState {
    /// Bits of the time of the reading this state was taken from.
    pub timestamp: u64,
    /// Bits of the value of each axis.
    pub axes: Vec<u64>,
    /// For each button, whether it is pressed and the bits of its value.
    pub buttons: Vec<(bool, u64)>,
}

/// The mathematical content of a [`GamepadState`].
pub struct GamepadStateView {
    /// Bits of the time of the reading the state was taken from.
    pub timestamp: u64,
    /// Bits of the value of each axis.
    pub axes: Seq<u64>,
    /// The pressed flag and the bits of the value of each button.
    pub buttons: Seq<(bool, u64)>,
}

impl View for GamepadState {
    type V = GamepadStateView;

    open spec fn view(&self) -> GamepadStateView {
        GamepadStateView { timestamp: self.timestamp, axes: self.axes@, buttons: self.buttons@ }
    }
}

impl RawGamepadView {
    /// The description of the controller that gave this reading.
    pub open spec fn description(self) -> GamepadDescriptionView {
        GamepadDescriptionView {
            index: self.index,
            name: self.name,
            mapping: self.mapping,
            axis_count: self.axes.len(),
            button_count: self.buttons.len(),
        }
    }

    /// The state this reading shows.
    pub open spec fn state(self) -> GamepadStateView {
        GamepadStateView { timestamp: self.timestamp, axes: self.axes, buttons: self.buttons }
    }
}

impl GamepadDescriptionView {
    /// The state of a controller of this description before any reading: every
    /// axis at rest, every button released, and a timestamp earlier than any
    /// the controller reports.
    pub open spec fn baseline(self) -> GamepadStateView {
        GamepadStateView {
            timestamp: BASELINE_TIMESTAMP,
            axes: Seq::new(self.axis_count, |i: int| ZERO),
            buttons: Seq::new(self.button_count, |i: int| (false, ZERO)),
        }
    }
}

impl GamepadStateView {
    /// How many entries the state has on a channel.
    pub open spec fn width(self, channel: Channel) -> nat {
        match channel {
            Channel::Axis => self.axes.len(),
            Channel::Button => self.buttons.len(),
            Channel::ButtonValue => self.buttons.len(),
        }
    }

    /// What the state shows on a channel at an index, in the form of the change
    /// that reports it.
    pub open spec fn reading(self, channel: Channel, index: int) -> GamepadStateChange {
        match channel {
            Channel::Axis => GamepadStateChange::Axis(index as usize, self.axes[index]),
            Channel::Button => GamepadStateChange::Button(index as usize, self.buttons[index].0),
            Channel::ButtonValue => GamepadStateChange::ButtonValue(
                index as usize,
                self.buttons[index].1,
            ),
        }
    }

    /// How many entries of a channel can be compared between two states.
    pub open spec fn shared_width(self, other: Self, channel: Channel) -> nat {
        if self.width(channel) <= other.width(channel) {
            self.width(channel)
        } else {
            other.width(channel)
        }
    }

    /// The changes on one channel among its first `n` entries: the reading of
    /// `self` at each index where it is not the reading of `previous`, by
    /// ascending index.
    pub open spec fn channel_changes(self, previous: Self, channel: Channel, n: nat) -> Seq<
        GamepadStateChange,
    >
        decreases n,
    {
        if n == 0 {
            Seq::empty()
        } else {
            let i = n - 1;
            let earlier = self.channel_changes(previous, channel, i as nat);
            if self.reading(channel, i) != previous.reading(channel, i) {
                earlier.push(self.reading(channel, i))
            } else {
                earlier
            }
        }
    }

    /// The changes that lead from `previous` to `self`: those of the axes, then
    /// those of the pressed flags, then those of the button values. Entries
    /// that only one of the two states has are not compared.
    pub open spec fn changes_since(self, previous: Self) -> Seq<GamepadStateChange> {
        self.channel_changes(previous, Channel::Axis, self.shared_width(previous, Channel::Axis))
            + self.channel_changes(
            previous,
            Channel::Button,
            self.shared_width(previous, Channel::Button),
        ) + self.channel_changes(
            previous,
            Channel::ButtonValue,
            self.shared_width(previous, Channel::ButtonValue),
        )
    }
}

impl GamepadState {
    /// Bits of the time at which the gamepad last updated this state.
    pub fn timestamp(&self) -> (timestamp: u64)
        ensures
            timestamp == self@.timestamp,
    {
        self.timestamp
    }

    /// The number of axes this gamepad reports.
    pub fn axis_count(&self) -> (count: usize)
        ensures
            count == self@.axes.len(),
    {
        self.axes.len()
    }

    /// The number of buttons this gamepad reports.
    pub fn button_count(&self) -> (count: usize)
        ensures
            count == self@.buttons.len(),
    {
        self.buttons.len()
    }

    /// Get the bits of the value of an axis, a number in [-1, 1].
    pub fn axis(&self, index: usize) -> (value: u64)
        requires
            index < self@.axes.len(),
        ensures
            value == self@.axes[index as int],
    {
        self.axes[index]
    }

    /// Is the button at this index pressed / held down?
    pub fn button_pressed(&self, index: usize) -> (pressed: bool)
        requires
            index < self@.buttons.len(),
        ensures
            pressed == self@.buttons[index as int].0,
    {
        self.buttons[index].0
    }

    /// How much is the button at this index pressed / held down? The bits of
    /// a number in [0, 1].
    ///
    /// For most buttons on most devices, this is either 0.0 (not pressed) or
    /// 1.0 (pressed). The main exceptions are triggers, which smoothly
    /// transition from 0.0 to 1.0 when pressed.
    pub fn button_value(&self, index: usize) -> (value: u64)
        requires
            index < self@.buttons.len(),
        ensures
            value == self@.buttons[index as int].1,
    {
        self.buttons[index].1
    }

    /// Find the changes in this state, compared to a previous state.
    ///
    /// The timestamps are not considered.
    /// `previous` could be newer than `self`, this still returns changes from
    /// `previous` to `self`.
    ///
    /// The two states are meant to be of one gamepad, with the same numbers of
    /// axes and buttons. Where they are not, the axes and buttons that both
    /// have are compared.
    pub fn changes_since(&self, previous: &Self) -> (changes: Vec<GamepadStateChange>)
        ensures
            changes@ == self@.changes_since(previous@),
    {
        let axes: usize = if self.axes.len() <= previous.axes.len() {
            self.axes.len()
        } else {
            previous.axes.len()
        };
        let buttons: usize = if self.buttons.len() <= previous.buttons.len() {
            self.buttons.len()
        } else {
            previous.buttons.len()
        };
        let mut changes: Vec<GamepadStateChange> = Vec::new();
        let mut i: usize = 0;
        while i < axes
            invariant
                i <= axes,
                axes == self@.shared_width(previous@, Channel::Axis),
                changes@ == self@.channel_changes(previous@, Channel::Axis, i as nat),
            decreases axes - i,
        {
            if self.axes[i] != previous.axes[i] {
                changes.push(GamepadStateChange::Axis(i, self.axes[i]));
            }
            i += 1;
        }
        let ghost moved = changes@;
        let mut j: usize = 0;
        while j < buttons
            invariant
                j <= buttons,
                buttons == self@.shared_width(previous@, Channel::Button),
                changes@ == moved + self@.channel_changes(previous@, Channel::Button, j as nat),
            decreases buttons - j,
        {
            if self.buttons[j].0 != previous.buttons[j].0 {
                changes.push(GamepadStateChange::Button(j, self.buttons[j].0));
            }
            j += 1;
        }
        let ghost switched = changes@;
        let mut k: usize = 0;
        while k < buttons
            invariant
                k <= buttons,
                buttons == self@.shared_width(previous@, Channel::ButtonValue),
                changes@ == switched + self@.channel_changes(
                    previous@,
                    Channel::ButtonValue,
                    k as nat,
                ),
            decreases buttons - k,
        {
            if self.buttons[k].1 != previous.buttons[k].1 {
                changes.push(GamepadStateChange::ButtonValue(k, self.buttons[k].1));
            }
            k += 1;
        }
        changes
    }
}


impl<'a> From<&'a RawGamepad> for GamepadDescription {
    /// Describe the controller that gave a reading.
    fn from(pad: &'a RawGamepad) -> (desc: Self)
        ensures
            desc@ == pad@.description(),
    {
        Self {
            index: pad.index,
            name: pad.name.clone(),
            mapping: pad.mapping,
            axis_count: pad.axes.len(),
            button_count: pad.buttons.len(),
        }
    }
}

impl<'a> vstd::std_specs::convert::FromSpecImpl<&'a RawGamepad> for GamepadDescription {
    open spec fn obeys_from_spec() -> bool {
        true
    }

    open spec fn from_spec(pad: &'a RawGamepad) -> Self {
        GamepadDescription {
            index: pad.index,
            name: pad.name,
            mapping: pad.mapping,
            axis_count: pad.axes.len(),
            button_count: pad.buttons.len(),
        }
    }
}

impl<'a> From<&'a RawGamepad> for GamepadState {
    /// Snapshot the state a reading shows.
    fn from(pad: &'a RawGamepad) -> (state: Self)
        ensures
            state@ == pad@.state(),
    {
        let mut buttons: Vec<(bool, u64)> = Vec::new();
        let mut i: usize = 0;
        while i < pad.buttons.len()
            invariant
                i <= pad.buttons.len(),
                buttons@ == pad.buttons@.take(i as int),
            decreases pad.buttons.len() - i,
        {
            buttons.push(pad.buttons[i]);
            i += 1;
        }
        let state = Self { timestamp: pad.timestamp, axes: pad.axes.clone(), buttons };
        assert(state@.buttons =~= pad@.buttons);
        state
    }
}

impl<'a> vstd::std_specs::convert::FromSpecImpl<&'a RawGamepad> for GamepadState {
    /// The result is stated over views: a copy of a vector is a vector with
    /// the same items, which is less than being the same vector.
    open spec fn obeys_from_spec() -> bool {
        false
    }

    open spec fn from_spec(pad: &'a RawGamepad) -> Self {
        GamepadState { timestamp: pad.timestamp, axes: pad.axes, buttons: pad.buttons }
    }
}

impl<'a> From<&'a GamepadDescription> for GamepadState {
    /// Create a default GamepadState (axes at 0.0, buttons not pressed),
    /// with the given number of axes and buttons.
    ///
    /// Timestamp is -1.0, so this will always be "before" a recorded
    /// GamepadState.
    fn from(desc: &'a GamepadDescription) -> (state: Self)
        ensures
            state@ == desc@.baseline(),
    {
        let mut buttons: Vec<(bool, u64)> = Vec::new();
        let mut i: usize = 0;
        while i < desc.button_count
            invariant
                i <= desc.button_count,
                buttons@ == Seq::new(i as nat, |k: int| (false, ZERO)),
            decreases desc.button_count - i,
        {
            buttons.push((false, ZERO));
            i += 1;
        }
        let state = Self {
            timestamp: BASELINE_TIMESTAMP,
            axes: vec![ZERO; desc.axis_count],
            buttons,
        };
        assert(state@.axes =~= desc@.baseline().axes);
        state
    }
}

impl<'a> vstd::std_specs::convert::FromSpecImpl<&'a GamepadDescription> for GamepadState {
    /// The result is stated over views: see the reading's conversion.
    open spec fn obeys_from_spec() -> bool {
        false
    }

    open spec fn from_spec(desc: &'a GamepadDescription) -> Self {
        choose|state: GamepadState| state@ == desc@.baseline()
    }
}

impl GamepadStateView {
    /// The change that reports from `self` the entry that `change` reports.
    pub open spec fn restated(self, change: GamepadStateChange) -> GamepadStateChange {
        self.reading(change.channel(), change.index() as int)
    }

    /// Whether every entry of the state has an index of the machine's width, as
    /// the entries of any state held in memory have.
    pub open spec fn indexable(self) -> bool {
        self.axes.len() <= usize::MAX && self.buttons.len() <= usize::MAX
    }

    /// Whether the two states differ on a channel at an index that both have.
    pub open spec fn differs_from(self, previous: Self, channel: Channel, index: int) -> bool {
        &&& 0 <= index < self.shared_width(previous, channel)
        &&& self.reading(channel, index) != previous.reading(channel, index)
    }
}

/// What one channel contributes: changes of that channel only, each the
/// reading of `current` at an index below `n` where the two states differ, by
/// strictly ascending index, and none of those indices left out.
proof fn lemma_channel_changes(
    current: GamepadStateView,
    previous: GamepadStateView,
    channel: Channel,
    n: nat,
)
    requires
        n <= current.shared_width(previous, channel),
        n <= usize::MAX,
    ensures
        ({
            let changes = current.channel_changes(previous, channel, n);
            &&& forall|k: int|
                0 <= k < changes.len() ==> {
                    let change = #[trigger] changes[k];
                    &&& change.channel() == channel
                    &&& change.index() < n
                    &&& change == current.reading(channel, change.index() as int)
                    &&& current.differs_from(previous, channel, change.index() as int)
                }
            &&& forall|k: int, l: int|
                0 <= k < l < changes.len() ==> (#[trigger] changes[k]).index() < (
                #[trigger] changes[l]).index()
            &&& forall|i: int|
                0 <= i < n && #[trigger] current.differs_from(previous, channel, i)
                    ==> changes.contains(current.reading(channel, i))
        }),
    decreases n,
{
    if n > 0 {
        let i = n - 1;
        let earlier = current.channel_changes(previous, channel, i as nat);
        let all = current.channel_changes(previous, channel, n);
        lemma_channel_changes(current, previous, channel, i as nat);
        assert forall|m: int|
            0 <= m < n && #[trigger] current.differs_from(
                previous,
                channel,
                m,
            ) implies all.contains(current.reading(channel, m)) by {
            if m < i {
                let k = choose|k: int|
                    0 <= k < earlier.len() && earlier[k] == current.reading(channel, m);
                assert(all[k] == current.reading(channel, m));
            } else {
                assert(all[all.len() - 1] == current.reading(channel, m));
            }
        }
    }
}

/// The same channel read in the other direction changes at the same indices,
/// and reports what the other state reads there.
proof fn lemma_channel_changes_mirror(
    a: GamepadStateView,
    b: GamepadStateView,
    channel: Channel,
    n: nat,
)
    requires
        n <= a.shared_width(b, channel),
        n <= usize::MAX,
    ensures
        b.channel_changes(a, channel, n) == a.channel_changes(b, channel, n).map_values(
            |change: GamepadStateChange| b.restated(change),
        ),
    decreases n,
{
    if n > 0 {
        lemma_channel_changes_mirror(a, b, channel, (n - 1) as nat);
    }
}

/// The entries of a state are those of two vectors, so each has an index of
/// the machine's width.
pub proof fn lemma_state_indexable(state: GamepadState)
    ensures
        state@.indexable(),
{
    assert(state.axes.len() == state@.axes.len());
    assert(state.buttons.len() == state@.buttons.len());
}

/// Where two states hold the same entries, no channel has changed.
proof fn lemma_channel_unchanged(
    current: GamepadStateView,
    previous: GamepadStateView,
    channel: Channel,
    n: nat,
)
    requires
        current.axes == previous.axes,
        current.buttons == previous.buttons,
    ensures
        current.channel_changes(previous, channel, n) == Seq::<GamepadStateChange>::empty(),
    decreases n,
{
    if n > 0 {
        lemma_channel_unchanged(current, previous, channel, (n - 1) as nat);
    }
}

/// The timestamps are not compared: two states with the same axes and the
/// same buttons have not changed, whenever they were taken.
pub proof fn lemma_unchanged_but_for_time(current: GamepadStateView, previous: GamepadStateView)
    requires
        current.axes == previous.axes,
        current.buttons == previous.buttons,
    ensures
        current.changes_since(previous) == Seq::<GamepadStateChange>::empty(),
{
    lemma_channel_unchanged(
        current,
        previous,
        Channel::Axis,
        current.shared_width(previous, Channel::Axis),
    );
    lemma_channel_unchanged(
        current,
        previous,
        Channel::Button,
        current.shared_width(previous, Channel::Button),
    );
    lemma_channel_unchanged(
        current,
        previous,
        Channel::ButtonValue,
        current.shared_width(previous, Channel::ButtonValue),
    );
}

/// Comparing a state with itself yields no change.
pub proof fn lemma_unchanged_since_self(state: GamepadStateView)
    ensures
        state.changes_since(state) == Seq::<GamepadStateChange>::empty(),
{
    lemma_unchanged_but_for_time(state, state);
}

/// The state a description starts from has not changed since itself, whatever
/// the numbers of axes and buttons.
pub proof fn lemma_baseline_unchanged(desc: GamepadDescriptionView)
    ensures
        desc.baseline().changes_since(desc.baseline()) == Seq::<GamepadStateChange>::empty(),
{
    lemma_unchanged_since_self(desc.baseline());
}

/// A change is reported exactly when the two states differ at its index on its
/// channel, and then it carries what `current` reads there.
pub proof fn lemma_changes_exact(
    current: GamepadState,
    previous: GamepadState,
    change: GamepadStateChange,
)
    ensures
        current@.changes_since(previous@).contains(change) <==> {
            &&& current@.differs_from(previous@, change.channel(), change.index() as int)
            &&& change == current@.restated(change)
        },
{
    lemma_state_indexable(current);
    lemma_state_indexable(previous);
    lemma_view_changes_exact(current@, previous@, change);
}

/// The law of [`lemma_changes_exact`] for any two views whose entries have
/// indices of the machine's width, whatever they are the views of.
pub proof fn lemma_view_changes_exact(
    cur: GamepadStateView,
    prev: GamepadStateView,
    change: GamepadStateChange,
)
    requires
        cur.indexable(),
        prev.indexable(),
    ensures
        cur.changes_since(prev).contains(change) <==> {
            &&& cur.differs_from(prev, change.channel(), change.index() as int)
            &&& change == cur.restated(change)
        },
{
    let moved = cur.channel_changes(prev, Channel::Axis, cur.shared_width(prev, Channel::Axis));
    let switched = cur.channel_changes(
        prev,
        Channel::Button,
        cur.shared_width(prev, Channel::Button),
    );
    let all = cur.changes_since(prev);
    lemma_channel_changes(cur, prev, Channel::Axis, cur.shared_width(prev, Channel::Axis));
    lemma_channel_changes(cur, prev, Channel::Button, cur.shared_width(prev, Channel::Button));
    lemma_channel_changes(
        cur,
        prev,
        Channel::ButtonValue,
        cur.shared_width(prev, Channel::ButtonValue),
    );
    if cur.differs_from(prev, change.channel(), change.index() as int) && change == cur.restated(
        change,
    ) {
        let part = cur.channel_changes(
            prev,
            change.channel(),
            cur.shared_width(prev, change.channel()),
        );
        let k = choose|k: int| 0 <= k < part.len() && part[k] == change;
        match change.channel() {
            Channel::Axis => {
                assert(all[k] == change);
            },
            Channel::Button => {
                assert(all[moved.len() + k] == change);
            },
            Channel::ButtonValue => {
                assert(all[moved.len() + switched.len() + k] == change);
            },
        }
    }
}

/// Changes come channel by channel (axes, then pressed flags, then button
/// values) and within a channel by ascending index.
pub proof fn lemma_changes_ordered(
    current: GamepadState,
    previous: GamepadState,
    earlier: int,
    later: int,
)
    requires
        0 <= earlier < later < current@.changes_since(previous@).len(),
    ensures
        ({
            let first = current@.changes_since(previous@)[earlier];
            let second = current@.changes_since(previous@)[later];
            ||| first.channel().rank() < second.channel().rank()
            ||| first.channel() == second.channel() && first.index() < second.index()
        }),
{
    lemma_state_indexable(current);
    lemma_state_indexable(previous);
    lemma_view_changes_ordered(current@, previous@, earlier, later);
}

/// The law of [`lemma_changes_ordered`] for any two views whose entries have
/// indices of the machine's width, whatever they are the views of.
pub proof fn lemma_view_changes_ordered(
    cur: GamepadStateView,
    prev: GamepadStateView,
    earlier: int,
    later: int,
)
    requires
        cur.indexable(),
        prev.indexable(),
        0 <= earlier < later < cur.changes_since(prev).len(),
    ensures
        ({
            let first = cur.changes_since(prev)[earlier];
            let second = cur.changes_since(prev)[later];
            ||| first.channel().rank() < second.channel().rank()
            ||| first.channel() == second.channel() && first.index() < second.index()
        }),
{
    lemma_channel_changes(cur, prev, Channel::Axis, cur.shared_width(prev, Channel::Axis));
    lemma_channel_changes(cur, prev, Channel::Button, cur.shared_width(prev, Channel::Button));
    lemma_channel_changes(
        cur,
        prev,
        Channel::ButtonValue,
        cur.shared_width(prev, Channel::ButtonValue),
    );
}

/// Swapping the two states swaps the direction of every change and nothing
/// else: the reverse comparison reports the same entries in the same order,
/// each with the value of the other state. For a pressed flag that is the
/// opposite flag.
pub proof fn lemma_changes_symmetric(a: GamepadState, b: GamepadState)
    ensures
        b@.changes_since(a@) == a@.changes_since(b@).map_values(
            |change: GamepadStateChange| b@.restated(change),
        ),
        b@.changes_since(a@).len() == a@.changes_since(b@).len(),
        forall|k: int|
            0 <= k < a@.changes_since(b@).len() ==> (#[trigger] a@.changes_since(
                b@,
            )[k] matches GamepadStateChange::Button(i, pressed) ==> b@.changes_since(a@)[k]
                == GamepadStateChange::Button(i, !pressed)),
{
    lemma_state_indexable(a);
    lemma_state_indexable(b);
    lemma_view_changes_symmetric(a@, b@);
}

/// The law of [`lemma_changes_symmetric`] for any two views whose entries have
/// indices of the machine's width, whatever they are the views of.
pub proof fn lemma_view_changes_symmetric(av: GamepadStateView, bv: GamepadStateView)
    requires
        av.indexable(),
        bv.indexable(),
    ensures
        bv.changes_since(av) == av.changes_since(bv).map_values(
            |change: GamepadStateChange| bv.restated(change),
        ),
        bv.changes_since(av).len() == av.changes_since(bv).len(),
        forall|k: int|
            0 <= k < av.changes_since(bv).len() ==> (#[trigger] av.changes_since(
                bv,
            )[k] matches GamepadStateChange::Button(i, pressed) ==> bv.changes_since(av)[k]
                == GamepadStateChange::Button(i, !pressed)),
{
    let axes = av.shared_width(bv, Channel::Axis);
    let buttons = av.shared_width(bv, Channel::Button);
    lemma_channel_changes_mirror(av, bv, Channel::Axis, axes);
    lemma_channel_changes_mirror(av, bv, Channel::Button, buttons);
    lemma_channel_changes_mirror(av, bv, Channel::ButtonValue, buttons);
    let forward = av.changes_since(bv);
    let backward = bv.changes_since(av);
    assert forall|k: int|
        0 <= k < forward.len() implies (#[trigger] forward[k] matches GamepadStateChange::Button(
        i,
        held,
    ) ==> backward[k] == GamepadStateChange::Button(i, !held)) by {
        if forward[k] is Button {
            lemma_view_changes_exact(av, bv, forward[k]);
        }
    }
}

} // verus!
