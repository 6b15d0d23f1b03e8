//! What a monitor reports over a run of reports of the controller source.

use crate::event::{EventData, EventView};
use crate::gamepad::RawGamepadView;
use crate::monitor::{
    pads_after, polled_events, slot_after, slot_at, slot_events, ConnectedPadView, MonitorView,
};
use vstd::prelude::*;

verus! {

/// A slot after a run of reports for it, taken in one after the other.
pub open spec fn slot_after_all(
    slot: Option<ConnectedPadView>,
    raws: Seq<Option<RawGamepadView>>,
) -> Option<ConnectedPadView>
    decreases raws.len(),
{
    if raws.len() == 0 {
        slot
    } else {
        slot_after_all(slot_after(slot, raws[0]), raws.drop_first())
    }
}

/// The events that a run of reports for a slot gives, in the order of the
/// reports.
pub open spec fn slot_events_all(
    slot: Option<ConnectedPadView>,
    raws: Seq<Option<RawGamepadView>>,
) -> Seq<EventView>
    decreases raws.len(),
{
    if raws.len() == 0 {
        Seq::empty()
    } else {
        slot_events(slot, raws[0]) + slot_events_all(slot_after(slot, raws[0]), raws.drop_first())
    }
}

/// The input events of a tracked gamepad over a run of readings of it: for
/// each reading in turn, the changes since the state tracked before it.
pub open spec fn input_of(pad: ConnectedPadView, raws: Seq<RawGamepadView>) -> Seq<EventView>
    decreases raws.len(),
{
    if raws.len() == 0 {
        Seq::empty()
    } else {
        pad.refresh_events(raws[0]) + input_of(pad.refreshed(raws[0]), raws.drop_first())
    }
}

/// The reports of a slot that holds a gamepad all along: each reading, present.
pub open spec fn present(raws: Seq<RawGamepadView>) -> Seq<Option<RawGamepadView>> {
    raws.map_values(|raw: RawGamepadView| Some(raw))
}

/// The reports of a source that has one slot, from what it holds each time.
pub open spec fn one_slot(raws: Seq<Option<RawGamepadView>>) -> Seq<Seq<Option<RawGamepadView>>> {
    raws.map_values(|raw: Option<RawGamepadView>| seq![raw])
}

impl MonitorView {
    /// The monitor after it took in a run of reports, one after the other.
    pub open spec fn after_reports(
        self,
        reports: Seq<Seq<Option<RawGamepadView>>>,
    ) -> MonitorView
        decreases reports.len(),
    {
        if reports.len() == 0 {
            self
        } else {
            self.after_fetch(reports[0]).after_reports(reports.drop_first())
        }
    }
}

/// The connection of a gamepad, as an event.
pub open spec fn connected(raw: RawGamepadView) -> EventView {
    EventView { gamepad: raw.description(), data: EventData::Connected }
}

/// The disconnection of a gamepad, as an event.
pub open spec fn disconnected(raw: RawGamepadView) -> EventView {
    EventView { gamepad: raw.description(), data: EventData::Disconnected }
}

/// A gamepad keeps the description it connected with for as long as the source
/// reports it, whatever the readings say.
pub proof fn lemma_description_kept(pad: ConnectedPadView, raws: Seq<RawGamepadView>)
    ensures
        slot_after_all(Some(pad), present(raws)) matches Some(kept) && kept.desc == pad.desc,
    decreases raws.len(),
{
    if raws.len() > 0 {
        lemma_description_kept(pad.refreshed(raws[0]), raws.drop_first());
        assert(present(raws).drop_first() =~= present(raws.drop_first()));
    }
}

/// The input events of a tracked gamepad are input, and of that gamepad.
proof fn lemma_input_of(pad: ConnectedPadView, raws: Seq<RawGamepadView>, k: int)
    requires
        0 <= k < input_of(pad, raws).len(),
    ensures
        input_of(pad, raws)[k].gamepad == pad.desc,
        input_of(pad, raws)[k].data.is_input(),
    decreases raws.len(),
{
    let first = pad.refresh_events(raws[0]);
    if k >= first.len() {
        lemma_input_of(pad.refreshed(raws[0]), raws.drop_first(), k - first.len());
    }
}

/// A tracked gamepad that is read some number of times and then gone gives
/// its input events and then its disconnection, and leaves the slot empty.
proof fn lemma_tracked_session(pad: ConnectedPadView, raws: Seq<RawGamepadView>)
    ensures
        slot_events_all(Some(pad), present(raws).push(None)) == input_of(pad, raws).push(
            EventView { gamepad: pad.desc, data: EventData::Disconnected },
        ),
        slot_after_all(Some(pad), present(raws).push(None)) is None,
    decreases raws.len(),
{
    let reports = present(raws).push(None);
    if raws.len() == 0 {
        assert(slot_events_all(None, reports.drop_first()) =~= Seq::empty());
        assert(slot_after_all(None, reports.drop_first()) is None);
    } else {
        lemma_tracked_session(pad.refreshed(raws[0]), raws.drop_first());
        assert(reports.drop_first() =~= present(raws.drop_first()).push(None));
    }
}

/// One gamepad from its connection to its disconnection: a slot that is empty,
/// then holds a gamepad for some readings, then is empty again gives exactly
/// the connection of the gamepad, then the input events of its readings in
/// their order, then its disconnection. Every event is of that gamepad, only
/// the first is a connection and only the last a disconnection.
pub proof fn lemma_session_bracketed(raws: Seq<RawGamepadView>)
    requires
        raws.len() > 0,
    ensures
        slot_events_all(None, present(raws).push(None)) == seq![connected(raws[0])] + input_of(
            ConnectedPadView::connected(raws[0]),
            raws,
        ) + seq![disconnected(raws[0])],
        slot_after_all(None, present(raws).push(None)) is None,
        forall|k: int|
            0 <= k < slot_events_all(None, present(raws).push(None)).len() ==> {
                let event = #[trigger] slot_events_all(None, present(raws).push(None))[k];
                &&& event.gamepad == raws[0].description()
                &&& (event.data is Connected <==> k == 0)
                &&& (event.data is Disconnected <==> k == slot_events_all(
                    None,
                    present(raws).push(None),
                ).len() - 1)
            },
{
    let reports = present(raws).push(None);
    let pad = ConnectedPadView::connected(raws[0]);
    let input = input_of(pad, raws);
    let events = seq![connected(raws[0])] + input + seq![disconnected(raws[0])];
    lemma_tracked_session(pad.refreshed(raws[0]), raws.drop_first());
    assert(reports.drop_first() =~= present(raws.drop_first()).push(None));
    assert forall|k: int| 0 <= k < events.len() implies {
        let event = #[trigger] events[k];
        &&& event.gamepad == raws[0].description()
        &&& (event.data is Connected <==> k == 0)
        &&& (event.data is Disconnected <==> k == events.len() - 1)
    } by {
        if 0 < k < events.len() - 1 {
            lemma_input_of(pad, raws, k - 1);
        }
    }
}

/// A monitor that knows at most one slot and takes in a report of a source
/// with one slot does with its table what that slot does.
proof fn lemma_one_slot_fetch(monitor: MonitorView, raw: Option<RawGamepadView>)
    requires
        monitor.pads.len() <= 1,
    ensures
        monitor.after_fetch(seq![raw]) == (MonitorView {
            queue: monitor.queue + slot_events(slot_at(monitor.pads, 0), raw),
            pads: seq![slot_after(slot_at(monitor.pads, 0), raw)],
        }),
{
    let raws = seq![raw];
    assert(polled_events(monitor.pads, raws, 0) =~= Seq::<EventView>::empty());
    assert(pads_after(monitor.pads, raws) =~= seq![slot_after(slot_at(monitor.pads, 0), raw)]);
}

/// Over a run of reports of a source with one slot, the queue of a monitor
/// grows by the events of that slot.
proof fn lemma_one_slot_reports(monitor: MonitorView, raws: Seq<Option<RawGamepadView>>)
    requires
        monitor.pads.len() <= 1,
    ensures
        monitor.after_reports(one_slot(raws)).queue == monitor.queue + slot_events_all(
            slot_at(monitor.pads, 0),
            raws,
        ),
        raws.len() > 0 ==> monitor.after_reports(one_slot(raws)).pads == seq![
            slot_after_all(slot_at(monitor.pads, 0), raws),
        ],
    decreases raws.len(),
{
    if raws.len() > 0 {
        lemma_one_slot_fetch(monitor, raws[0]);
        lemma_one_slot_reports(monitor.after_fetch(seq![raws[0]]), raws.drop_first());
        assert(one_slot(raws).drop_first() =~= one_slot(raws.drop_first()));
    }
}

/// A whole session of a monitor: a new monitor that takes in the reports of a
/// source with one slot, in which a gamepad appears, is read some number of
/// times and disappears, has queued exactly the connection of the gamepad, the
/// input events of its readings in their order, and its disconnection, and
/// tracks nothing in the end.
pub proof fn lemma_monitor_session(raws: Seq<RawGamepadView>)
    requires
        raws.len() > 0,
    ensures
        MonitorView::idle().after_reports(one_slot(present(raws).push(None))) == (MonitorView {
            queue: seq![connected(raws[0])] + input_of(ConnectedPadView::connected(raws[0]), raws)
                + seq![disconnected(raws[0])],
            pads: seq![None],
        }),
{
    let reports = present(raws).push(None);
    lemma_session_bracketed(raws);
    lemma_one_slot_reports(MonitorView::idle(), reports);
}

} // verus!
