//! The monitor: one tracked gamepad per slot, compared with each new reading
//! of the controller source, and a queue of the events that the comparison
//! gives.

use crate::event::{Event, EventData, EventView, MappedEvent};
use crate::float_bits::{number_eq, same_number};
use crate::gamepad::{
    lemma_unchanged_but_for_time, lemma_unchanged_since_self, GamepadDescription,
    GamepadDescriptionView, GamepadState, GamepadStateChange, GamepadStateView, RawGamepad,
    RawGamepadView,
};
use std::collections::VecDeque;
use std::rc::Rc;
use vstd::prelude::*;

verus! {

/// A gamepad that a monitor tracks: what it is, and the state last seen of it.
#[derive(Debug, PartialEq, Eq, Clone)]
struct ConnectedPad {
    desc: Rc<GamepadDescription>,
    state: GamepadState,
}

/// The mathematical content of a tracked gamepad.
pub struct ConnectedPadView {
    /// What the gamepad was when it connected.
    pub desc: GamepadDescriptionView,
    /// The state last taken from a reading of the gamepad.
    pub state: GamepadStateView,
}

/// The mathematical content of a [`Monitor`]: the events not yet handed out,
/// oldest first, and the slot table, where `None` is an empty slot.
pub struct MonitorView {
    /// The events that wait to be handed out, oldest first.
    pub queue: Seq<EventView>,
    /// The gamepad tracked in each slot, if any.
    pub pads: Seq<Option<ConnectedPadView>>,
}

/// The event of a gamepad for each of a sequence of changes, in their order.
pub open spec fn input_events(desc: GamepadDescriptionView, changes: Seq<GamepadStateChange>) -> Seq<
    EventView,
> {
    changes.map_values(
        |change: GamepadStateChange|
            EventView { gamepad: desc, data: EventData::of_change(change) },
    )
}

impl ConnectedPadView {
    /// The gamepad as it is tracked from the reading that first shows it,
    /// before that reading is looked at: in the state its description starts
    /// from.
    pub open spec fn connected(raw: RawGamepadView) -> ConnectedPadView {
        ConnectedPadView { desc: raw.description(), state: raw.description().baseline() }
    }

    /// Whether a reading is the one the tracked state was taken from or
    /// compared with last: its timestamp is the same number.
    pub open spec fn is_current(self, raw: RawGamepadView) -> bool {
        number_eq(self.state.timestamp, raw.timestamp)
    }

    /// The tracked gamepad after a reading of it: the same gamepad, in the
    /// state the reading shows unless the reading is not new.
    pub open spec fn refreshed(self, raw: RawGamepadView) -> ConnectedPadView {
        if self.is_current(raw) {
            self
        } else {
            ConnectedPadView { desc: self.desc, state: raw.state() }
        }
    }

    /// The events a reading of a tracked gamepad gives: one for each change
    /// since the tracked state, none if the reading is not new.
    pub open spec fn refresh_events(self, raw: RawGamepadView) -> Seq<EventView> {
        if self.is_current(raw) {
            Seq::empty()
        } else {
            input_events(self.desc, raw.state().changes_since(self.state))
        }
    }
}

/// A slot after the source reported `raw` for it.
pub open spec fn slot_after(
    slot: Option<ConnectedPadView>,
    raw: Option<RawGamepadView>,
) -> Option<ConnectedPadView> {
    match (slot, raw) {
        (_, None) => None,
        (Some(pad), Some(raw)) => Some(pad.refreshed(raw)),
        (None, Some(raw)) => Some(ConnectedPadView::connected(raw).refreshed(raw)),
    }
}

/// The events that a report of `raw` for a slot gives.
///
/// An empty slot that stays empty gives none. A gamepad that is gone gives its
/// disconnection. A gamepad that is still there gives its changes. A gamepad
/// that is new gives its connection, then its changes since the state its
/// description starts from.
pub open spec fn slot_events(slot: Option<ConnectedPadView>, raw: Option<RawGamepadView>) -> Seq<
    EventView,
> {
    match (slot, raw) {
        (None, None) => Seq::empty(),
        (Some(pad), None) => seq![EventView { gamepad: pad.desc, data: EventData::Disconnected }],
        (Some(pad), Some(raw)) => pad.refresh_events(raw),
        (None, Some(raw)) => seq![
            EventView { gamepad: raw.description(), data: EventData::Connected },
        ] + ConnectedPadView::connected(raw).refresh_events(raw),
    }
}

/// The slot of a table at an index; past the end of the table slots are empty.
pub open spec fn slot_at(pads: Seq<Option<ConnectedPadView>>, index: int) -> Option<
    ConnectedPadView,
> {
    if 0 <= index < pads.len() {
        pads[index]
    } else {
        None
    }
}

/// The slot table after a report of the source: as long as the report, each
/// slot after what the report holds for it.
pub open spec fn pads_after(
    pads: Seq<Option<ConnectedPadView>>,
    raws: Seq<Option<RawGamepadView>>,
) -> Seq<Option<ConnectedPadView>> {
    Seq::new(raws.len(), |i: int| slot_after(slot_at(pads, i), raws[i]))
}

/// The disconnections of the gamepads in the slots from `from` up to `to`, by
/// ascending slot.
pub open spec fn disconnections(pads: Seq<Option<ConnectedPadView>>, from: int, to: int) -> Seq<
    EventView,
>
    decreases to - from,
{
    if to <= from {
        Seq::empty()
    } else {
        disconnections(pads, from, to - 1) + slot_events(slot_at(pads, to - 1), None)
    }
}

/// The events that a report gives for its first `n` slots, by ascending slot.
pub open spec fn polled_events(
    pads: Seq<Option<ConnectedPadView>>,
    raws: Seq<Option<RawGamepadView>>,
    n: int,
) -> Seq<EventView>
    decreases n,
{
    if n <= 0 {
        Seq::empty()
    } else {
        polled_events(pads, raws, n - 1) + slot_events(slot_at(pads, n - 1), raws[n - 1])
    }
}

/// The events that a report of the source gives: the disconnections of the
/// gamepads in slots that the report no longer has, then the events of each
/// slot of the report.
pub open spec fn fetch_events(
    pads: Seq<Option<ConnectedPadView>>,
    raws: Seq<Option<RawGamepadView>>,
) -> Seq<EventView> {
    disconnections(pads, raws.len() as int, pads.len() as int) + polled_events(
        pads,
        raws,
        raws.len() as int,
    )
}

/// The events of a queue from the first one that amounts to a mapped event.
pub open spec fn from_first_mapped(events: Seq<EventView>) -> Seq<EventView>
    decreases events.len(),
{
    if events.len() == 0 || events[0].mapped() is Some {
        events
    } else {
        from_first_mapped(events.drop_first())
    }
}

impl MonitorView {
    /// A monitor that knows no slot and has no event queued.
    pub open spec fn idle() -> MonitorView {
        MonitorView { queue: Seq::empty(), pads: Seq::empty() }
    }

    /// The monitor after it took in a report of the source.
    pub open spec fn after_fetch(self, raws: Seq<Option<RawGamepadView>>) -> MonitorView {
        MonitorView {
            queue: self.queue + fetch_events(self.pads, raws),
            pads: pads_after(self.pads, raws),
        }
    }

    /// The monitor once it has something to hand out, if it can be had: as it
    /// is while events are queued, else after it took in the report.
    pub open spec fn refilled(self, raws: Seq<Option<RawGamepadView>>) -> MonitorView {
        if self.queue.len() == 0 {
            self.after_fetch(raws)
        } else {
            self
        }
    }

    /// The monitor with another queue in place of its own.
    pub open spec fn with_queue(self, queue: Seq<EventView>) -> MonitorView {
        MonitorView { queue, pads: self.pads }
    }
}

/// The mathematical content of a report of the source.
pub open spec fn readings(raw_pads: Seq<Option<RawGamepad>>) -> Seq<Option<RawGamepadView>> {
    raw_pads.map_values(
        |raw: Option<RawGamepad>|
            match raw {
                Some(raw) => Some(raw@),
                None => None,
            },
    )
}

impl View for ConnectedPad {
    type V = ConnectedPadView;

    closed spec fn view(&self) -> ConnectedPadView {
        ConnectedPadView { desc: self.desc@, state: self.state@ }
    }
}

spec fn slot_view(slot: Option<ConnectedPad>) -> Option<ConnectedPadView> {
    match slot {
        Some(pad) => Some(pad@),
        None => None,
    }
}

spec fn queue_view(queue: Seq<Event>) -> Seq<EventView> {
    queue.map_values(|event: Event| event@)
}

spec fn pads_view(pads: Seq<Option<ConnectedPad>>) -> Seq<Option<ConnectedPadView>> {
    pads.map_values(|slot: Option<ConnectedPad>| slot_view(slot))
}

impl View for Monitor {
    type V = MonitorView;

    closed spec fn view(&self) -> MonitorView {
        MonitorView { queue: queue_view(self.queue@), pads: pads_view(self.pads@) }
    }
}

impl From<GamepadDescription> for ConnectedPad {
    /// Track a gamepad from the state its description starts from.
    fn from(desc: GamepadDescription) -> (pad: Self)
        ensures
            pad@ == (ConnectedPadView { desc: desc@, state: desc@.baseline() }),
    {
        let desc = Rc::new(desc);
        Self { desc: desc.clone(), state: GamepadState::from(&*desc) }
    }
}

impl vstd::std_specs::convert::FromSpecImpl<GamepadDescription> for ConnectedPad {
    /// The result is stated over views: the state is built, not given.
    open spec fn obeys_from_spec() -> bool {
        false
    }

    open spec fn from_spec(desc: GamepadDescription) -> Self {
        choose|pad: ConnectedPad| pad@ == (ConnectedPadView { desc: desc@, state: desc@.baseline() })
    }
}

/// Listen for gamepad events
pub struct Monitor {
    queue: VecDeque<Event>,
    pads: Vec<Option<ConnectedPad>>,
}

impl Monitor {
    /// Start listening for gamepad connections, disconnections, and input
    /// events: no slot is known yet and no event is queued.
    pub fn new() -> (monitor: Self)
        ensures
            monitor@ == MonitorView::idle(),
    {
        let monitor = Self { queue: VecDeque::new(), pads: Vec::new() };
        assert(monitor@.queue =~= Seq::empty());
        assert(monitor@.pads =~= Seq::empty());
        monitor
    }

    /// Take a reading of a tracked gamepad in. Enqueue any changes.
    fn update_state(pad: &mut ConnectedPad, raw: &RawGamepad, queue: &mut VecDeque<Event>)
        ensures
            final(pad)@ == old(pad)@.refreshed(raw@),
            queue_view(final(queue)@) == queue_view(old(queue)@) + old(pad)@.refresh_events(raw@),
    {
        // skip update if we already processed this timestamp
        if same_number(pad.state.timestamp(), raw.timestamp) {
            return ;
        }
        let next_state = GamepadState::from(raw);
        let changes = next_state.changes_since(&pad.state);
        let ghost events = input_events(pad@.desc, changes@);
        let mut i: usize = 0;
        while i < changes.len()
            invariant
                i <= changes.len(),
                *pad == *old(pad),
                events == input_events(pad@.desc, changes@),
                queue_view(queue@) == queue_view(old(queue)@) + events.take(i as int),
            decreases changes.len() - i,
        {
            let event = Event::new(pad.desc.clone(), EventData::from(&changes[i]));
            let ghost queued = queue@;
            queue.push_back(event);
            assert(queue_view(queue@) =~= queue_view(queued).push(events[i as int]));
            i += 1;
        }
        pad.state = next_state;
    }

    /// Creates a ConnectedPad and adds a connected event to queue
    fn make_connected(raw: &RawGamepad, queue: &mut VecDeque<Event>) -> (pad: ConnectedPad)
        ensures
            pad@ == ConnectedPadView::connected(raw@),
            queue_view(final(queue)@) == queue_view(old(queue)@).push(
                EventView { gamepad: raw@.description(), data: EventData::Connected },
            ),
    {
        let desc = GamepadDescription::from(raw);
        let pad = ConnectedPad::from(desc);
        queue.push_back(Event::new(pad.desc.clone(), EventData::Connected));
        pad
    }

    /// Update our stored snapshot from given Pad state. Enqueue any changes.
    fn update_pad(&mut self, i: usize, raw: &RawGamepad)
        requires
            i < old(self)@.pads.len(),
        ensures
            final(self)@.pads == old(self)@.pads.update(
                i as int,
                slot_after(old(self)@.pads[i as int], Some(raw@)),
            ),
            final(self)@.queue == old(self)@.queue + slot_events(
                old(self)@.pads[i as int],
                Some(raw@),
            ),
    {
        let slot = self.pads[i].take();
        let mut pad = match slot {
            Some(pad) => pad,
            None => Monitor::make_connected(raw, &mut self.queue),
        };
        Monitor::update_state(&mut pad, raw, &mut self.queue);
        self.pads[i] = Some(pad);
    }

    /// Reset the pad to None and emit a disconnected event.
    /// Does nothing if pad is already disconnected.
    fn disconnect_pad(&mut self, i: usize)
        requires
            i < old(self)@.pads.len(),
        ensures
            final(self)@.pads == old(self)@.pads.update(i as int, None),
            final(self)@.queue == old(self)@.queue + slot_events(old(self)@.pads[i as int], None),
    {
        if let Some(pad) = self.pads[i].take() {
            self.queue.push_back(Event::new(pad.desc, EventData::Disconnected));
        }
    }

    /// Give the slot table `size` slots: new slots are empty, and the gamepads
    /// of slots that go are disconnected first.
    fn resize_pads(&mut self, size: usize)
        ensures
            final(self)@.pads == Seq::new(size as nat, |i: int| slot_at(old(self)@.pads, i)),
            final(self)@.queue == old(self)@.queue + disconnections(
                old(self)@.pads,
                size as int,
                old(self)@.pads.len() as int,
            ),
    {
        let orig_size = self.pads.len();
        let ghost pads = self@.pads;
        // grow to handle more gamepads than before
        while self.pads.len() < size
            invariant
                orig_size == pads.len(),
                pads == old(self)@.pads,
                self@.pads.len() == self.pads.len(),
                self.pads.len() >= orig_size,
                size <= orig_size ==> self.pads.len() == orig_size,
                orig_size < size ==> self.pads.len() <= size,
                self@.queue == old(self)@.queue,
                forall|k: int| 0 <= k < self.pads.len() ==> self@.pads[k] == slot_at(pads, k),
            decreases size - self.pads.len(),
        {
            self.pads.push(None);
        }
        assert forall|k: int| size <= k < orig_size implies self@.pads[k] == pads[k] by {
            assert(self@.pads[k] == slot_at(pads, k));
        }
        // shrink to handle fewer gamepads than before
        let mut i: usize = size;
        while i < orig_size
            invariant
                size <= i,
                orig_size == pads.len(),
                pads == old(self)@.pads,
                self@.pads.len() == self.pads.len(),
                orig_size < size ==> self.pads.len() == size && i == size,
                size <= orig_size ==> self.pads.len() == orig_size && i <= orig_size,
                self@.queue == old(self)@.queue + disconnections(pads, size as int, i as int),
                forall|k: int| 0 <= k < size ==> self@.pads[k] == slot_at(pads, k),
                forall|k: int| i <= k < orig_size ==> self@.pads[k] == pads[k],
            decreases orig_size - i,
        {
            self.disconnect_pad(i);
            assert(self@.queue =~= old(self)@.queue + disconnections(
                pads,
                size as int,
                i as int + 1,
            ));
            i += 1;
        }
        proof {
            if orig_size < size {
                lemma_no_disconnections(pads, size as int, orig_size as int);
                lemma_no_disconnections(pads, size as int, i as int);
            }
        }
        self.pads.truncate(size);
    }

    /// Take a report of the controller source in: one entry per slot, `None`
    /// for a slot without a gamepad.
    ///
    /// The slot table takes the length of the report. Every slot follows what
    /// the report holds for it, and the events this gives are queued behind
    /// those already waiting: first the disconnections of the slots that the
    /// report no longer has, then the events of each slot of the report, by
    /// ascending slot.
    pub fn fetch_update(&mut self, raw_pads: &Vec<Option<RawGamepad>>)
        ensures
            final(self)@ == old(self)@.after_fetch(readings(raw_pads@)),
            final(self)@.pads.len() == raw_pads@.len(),
    {
        let ghost raws = readings(raw_pads@);
        let ghost pads = self@.pads;
        self.resize_pads(raw_pads.len());
        let ghost dropped = self@.queue;
        // update snapshots for each pad, enqueing any changes
        let mut i: usize = 0;
        while i < raw_pads.len()
            invariant
                i <= raw_pads.len(),
                raws == readings(raw_pads@),
                self@.pads.len() == raw_pads.len(),
                self@.queue == dropped + polled_events(pads, raws, i as int),
                forall|k: int| 0 <= k < i ==> self@.pads[k] == slot_after(slot_at(pads, k), raws[k]),
                forall|k: int| i <= k < raw_pads.len() ==> self@.pads[k] == slot_at(pads, k),
            decreases raw_pads.len() - i,
        {
            match &raw_pads[i] {
                None => self.disconnect_pad(i),
                Some(raw) => self.update_pad(i, raw),
            }
            i += 1;
        }
        assert(self@.pads =~= pads_after(pads, raws));
        assert(self@.queue =~= old(self)@.queue + fetch_events(pads, raws));
    }

    /// Whether the next call of [`Monitor::poll`] will take the report of the
    /// source in: no event is queued.
    pub fn needs_update(&self) -> (drained: bool)
        ensures
            drained == (self@.queue.len() == 0),
    {
        self.queue.len() == 0
    }

    /// Get the next event.
    ///
    /// `raw_pads` is the present report of the controller source. It is taken
    /// in only if no event is queued. The oldest queued event, if there is one
    /// now, leaves the queue and is returned.
    pub fn poll(&mut self, raw_pads: &Vec<Option<RawGamepad>>) -> (event: Option<Event>)
        ensures
            ({
                let ready = old(self)@.refilled(readings(raw_pads@));
                match event {
                    Some(event) => {
                        &&& ready.queue.len() > 0
                        &&& event@ == ready.queue[0]
                        &&& final(self)@ == ready.with_queue(ready.queue.drop_first())
                    },
                    None => ready.queue.len() == 0 && final(self)@ == ready,
                }
            }),
    {
        if self.queue.len() == 0 {
            self.fetch_update(raw_pads);
        }
        let ghost ready = self@;
        let event = self.queue.pop_front();
        assert(self@.queue =~= if ready.queue.len() > 0 {
            ready.queue.drop_first()
        } else {
            ready.queue
        });
        event
    }

    /// Get the next input event, discard other events.
    ///
    /// This is best suited for a single-user interface, because it merges
    /// input from all connected gamepads.
    ///
    /// Events are taken from the queue up to the first that amounts to a
    /// mapped event, which is returned. If the queue runs out, the report of
    /// the source is taken in, once, and its events are gone through in the
    /// same way; `None` says that they ran out too.
    pub fn poll_mapped(&mut self, raw_pads: &Vec<Option<RawGamepad>>) -> (mapped: Option<
        MappedEvent,
    >)
        ensures
            ({
                let raws = readings(raw_pads@);
                let queued = from_first_mapped(old(self)@.queue);
                let fetched = from_first_mapped(fetch_events(old(self)@.pads, raws));
                if queued.len() > 0 {
                    &&& mapped == queued[0].mapped()
                    &&& final(self)@ == old(self)@.with_queue(queued.drop_first())
                } else if fetched.len() > 0 {
                    &&& mapped == fetched[0].mapped()
                    &&& final(self)@ == old(self)@.after_fetch(raws).with_queue(
                        fetched.drop_first(),
                    )
                } else {
                    &&& mapped is None
                    &&& final(self)@ == old(self)@.after_fetch(raws).with_queue(Seq::empty())
                }
            }),
    {
        let ghost raws = readings(raw_pads@);
        let ghost queued = from_first_mapped(self@.queue);
        let ghost fetched = from_first_mapped(fetch_events(self@.pads, raws));
        let ghost settled = old(self)@.after_fetch(raws).with_queue(Seq::empty());
        let ghost mut refilled = false;
        proof {
            lemma_from_first_mapped(self@.queue);
            lemma_from_first_mapped(fetch_events(self@.pads, raws));
        }
        loop
            invariant
                raws == readings(raw_pads@),
                queued == from_first_mapped(old(self)@.queue),
                fetched == from_first_mapped(fetch_events(old(self)@.pads, raws)),
                settled == old(self)@.after_fetch(raws).with_queue(Seq::empty()),
                queued.len() > 0 ==> queued[0].mapped() is Some,
                fetched.len() > 0 ==> fetched[0].mapped() is Some,
                !refilled ==> self@.pads == old(self)@.pads && from_first_mapped(self@.queue)
                    == queued,
                refilled ==> queued.len() == 0 && self@.pads == settled.pads && from_first_mapped(
                    self@.queue,
                ) == fetched,
            decreases (if refilled { 0int } else { 1int }), self@.queue.len(),
        {
            let ghost drained = self@.queue.len() == 0;
            proof {
                if drained && refilled {
                    lemma_fetch_settles(old(self)@.pads, raws);
                }
            }
            match self.poll(raw_pads) {
                None => {
                    return None;
                },
                Some(event) => {
                    proof {
                        if drained {
                            refilled = true;
                        }
                    }
                    if let Some(mapped) = event.map() {
                        return Some(mapped);
                    }
                },
            }
        }
    }

    /// The gamepad tracked at this index, if there is one.
    fn pad(&self, index: usize) -> (pad: Option<&ConnectedPad>)
        ensures
            match pad {
                Some(pad) => slot_at(self@.pads, index as int) == Some(pad@),
                None => slot_at(self@.pads, index as int) is None,
            },
    {
        if index < self.pads.len() {
            self.pads[index].as_ref()
        } else {
            None
        }
    }

    /// Get the description of the gamepad connected at this index.
    pub fn pad_description(&self, index: usize) -> (desc: Option<&GamepadDescription>)
        ensures
            match desc {
                Some(desc) => slot_at(self@.pads, index as int) matches Some(pad) && pad.desc
                    == desc@,
                None => slot_at(self@.pads, index as int) is None,
            },
    {
        match self.pad(index) {
            Some(pad) => Some(&*pad.desc),
            None => None,
        }
    }

    /// Get the latest polled state of the gamepad connected at this index.
    ///
    /// This does not process new events; it returns a snapshot from the most
    /// recent poll. Only [`Monitor::poll`] and [`Monitor::poll_mapped`]
    /// process events.
    pub fn pad_state(&self, index: usize) -> (state: Option<&GamepadState>)
        ensures
            match state {
                Some(state) => slot_at(self@.pads, index as int) matches Some(pad) && pad.state
                    == state@,
                None => slot_at(self@.pads, index as int) is None,
            },
    {
        match self.pad(index) {
            Some(pad) => Some(&pad.state),
            None => None,
        }
    }
}

/// Nothing is disconnected where no slot goes.
proof fn lemma_no_disconnections(pads: Seq<Option<ConnectedPadView>>, from: int, to: int)
    requires
        to <= from,
    ensures
        disconnections(pads, from, to) == Seq::<EventView>::empty(),
{
}

/// What is left from the first mapped event on starts with a mapped event.
proof fn lemma_from_first_mapped(events: Seq<EventView>)
    ensures
        from_first_mapped(events).len() > 0 ==> from_first_mapped(events)[0].mapped() is Some,
    decreases events.len(),
{
    if events.len() != 0 && events[0].mapped() is None {
        lemma_from_first_mapped(events.drop_first());
    }
}

/// A gamepad that is at rest when it is first seen connects without input:
/// its connection is the only event.
pub proof fn lemma_connects_quietly_at_rest(raw: RawGamepadView)
    requires
        raw.state().axes == raw.description().baseline().axes,
        raw.state().buttons == raw.description().baseline().buttons,
    ensures
        slot_events(None, Some(raw)) == seq![
            EventView { gamepad: raw.description(), data: EventData::Connected },
        ],
{
    lemma_unchanged_but_for_time(raw.state(), raw.description().baseline());
}

/// A slot that has followed a report follows it again without a change and
/// without an event.
pub proof fn lemma_slot_settles(slot: Option<ConnectedPadView>, raw: Option<RawGamepadView>)
    ensures
        slot_after(slot_after(slot, raw), raw) == slot_after(slot, raw),
        slot_events(slot_after(slot, raw), raw) == Seq::<EventView>::empty(),
{
    if let Some(raw) = raw {
        lemma_unchanged_since_self(raw.state());
    }
}

/// A report that has been taken in changes nothing when it is taken in again:
/// the slot table stays as it is and no event is given. Every change of state
/// is reported once.
pub proof fn lemma_fetch_settles(
    pads: Seq<Option<ConnectedPadView>>,
    raws: Seq<Option<RawGamepadView>>,
)
    ensures
        pads_after(pads_after(pads, raws), raws) == pads_after(pads, raws),
        fetch_events(pads_after(pads, raws), raws) == Seq::<EventView>::empty(),
{
    let settled = pads_after(pads, raws);
    assert forall|i: int| 0 <= i < raws.len() implies slot_after(slot_at(settled, i), raws[i])
        == settled[i] by {
        lemma_slot_settles(slot_at(pads, i), raws[i]);
    }
    lemma_no_disconnections(settled, raws.len() as int, settled.len() as int);
    lemma_settled_quiet(pads, raws, raws.len() as int);
}

/// The first `n` slots of a table that has followed a report give no event
/// for that report.
proof fn lemma_settled_quiet(
    pads: Seq<Option<ConnectedPadView>>,
    raws: Seq<Option<RawGamepadView>>,
    n: int,
)
    requires
        0 <= n <= raws.len(),
    ensures
        polled_events(pads_after(pads, raws), raws, n) == Seq::<EventView>::empty(),
    decreases n,
{
    if n > 0 {
        lemma_settled_quiet(pads, raws, n - 1);
        lemma_slot_settles(slot_at(pads, n - 1), raws[n - 1]);
    }
}

} // verus!
