//! The events a monitor emits, raw and mapped to the standard names.

use crate::gamepad::{GamepadDescription, GamepadDescriptionView, GamepadStateChange};
use crate::mapping::{Axis, Button, GamepadMappingType, Mapping};
use std::rc::Rc;
use vstd::prelude::*;

verus! {

/// The data associated with an event, not including the gamepad itself.
#[derive(Debug, PartialEq, Eq, Clone, Copy, Structural)]
pub enum EventData {
    /// A gamepad was connected.
    Connected,
    /// A gamepad was disconnected.
    Disconnected,
    /// An axis was moved. (axis index, bits of the value in [-1, 1])
    Axis(usize, u64),
    /// A button was pressed or released. (button index, pressed)
    Button(usize, bool),
    /// A button's value (the amount it is pressed) changed. (button index,
    /// bits of the value in [0, 1])
    ButtonValue(usize, u64),
}

impl EventData {
    /// The event data that reports a change of state: the same kind, index
    /// and value.
    pub open spec fn of_change(change: GamepadStateChange) -> EventData {
        match change {
            GamepadStateChange::Axis(index, value) => EventData::Axis(index, value),
            GamepadStateChange::Button(index, pressed) => EventData::Button(index, pressed),
            GamepadStateChange::ButtonValue(index, value) => EventData::ButtonValue(index, value),
        }
    }

    /// Whether the data reports input, as opposed to a connection or a
    /// disconnection.
    pub open spec fn is_input(self) -> bool {
        !(self is Connected) && !(self is Disconnected)
    }
}

impl<'a> From<&'a GamepadStateChange> for EventData {
    fn from(change: &'a GamepadStateChange) -> (data: Self)
        ensures
            data == EventData::of_change(*change),
    {
        match *change {
            GamepadStateChange::Axis(index, value) => EventData::Axis(index, value),
            GamepadStateChange::Button(index, pressed) => EventData::Button(index, pressed),
            GamepadStateChange::ButtonValue(index, value) => EventData::ButtonValue(index, value),
        }
    }
}

impl<'a> vstd::std_specs::convert::FromSpecImpl<&'a GamepadStateChange> for EventData {
    open spec fn obeys_from_spec() -> bool {
        true
    }

    open spec fn from_spec(change: &'a GamepadStateChange) -> Self {
        EventData::of_change(*change)
    }
}

/// An event, including connections, disconnections, and button/axis input.
#[derive(Debug, PartialEq, Eq, Clone)]
pub struct Event {
    /// A description of the gamepad which emitted this event.
    pub gamepad: Rc<GamepadDescription>,
    /// The event type and values.
    pub data: EventData,
}

/// The mathematical content of an [`Event`].
pub struct EventView {
    /// The description of the gamepad which emitted the event.
    pub gamepad: GamepadDescriptionView,
    /// The event type and values.
    pub data: EventData,
}

impl View for Event {
    type V = EventView;

    open spec fn view(&self) -> EventView {
        EventView { gamepad: self.gamepad@, data: self.data }
    }
}

/// An input event, mapped to one of the standard buttons or axes.
#[derive(Debug, PartialEq, Eq, Clone, Copy, Structural)]
pub enum MappedEvent {
    /// An axis was moved. Bits of a value in [-1, 1].
    Axis(Axis, u64),
    /// A button's value (the amount it is pressed) changed. Bits of a value
    /// in [0, 1].
    ButtonValue(Button, u64),
    /// A button was pressed.
    ButtonPress(Button),
    /// A button was released.
    ButtonRelease(Button),
}

impl EventView {
    /// The standard input event that this event amounts to: the same input
    /// under the name that the gamepad's layout gives its index. Events that
    /// report no input, and input at an index without a name, amount to none.
    pub open spec fn mapped(self) -> Option<MappedEvent> {
        match self.data {
            EventData::Axis(index, value) => match self.gamepad.mapping.axis_at(index) {
                Some(axis) => Some(MappedEvent::Axis(axis, value)),
                None => None,
            },
            EventData::Button(index, pressed) => match self.gamepad.mapping.button_at(index) {
                Some(button) => Some(
                    if pressed {
                        MappedEvent::ButtonPress(button)
                    } else {
                        MappedEvent::ButtonRelease(button)
                    },
                ),
                None => None,
            },
            EventData::ButtonValue(index, value) => match self.gamepad.mapping.button_at(index) {
                Some(button) => Some(MappedEvent::ButtonValue(button, value)),
                None => None,
            },
            EventData::Connected => None,
            EventData::Disconnected => None,
        }
    }
}

impl Event {
    /// An event of the given gamepad.
    pub fn new(gamepad: Rc<GamepadDescription>, data: EventData) -> (event: Self)
        ensures
            event@ == (EventView { gamepad: gamepad@, data }),
            event.gamepad == gamepad,
    {
        Self { gamepad, data }
    }

    /// Convert this raw event to a standard input event.
    ///
    /// The button-index or axis-index is mapped to a [`Button`] or [`Axis`].
    /// Returns `None` if the gamepad mapping is unknown,
    /// or the event is a non-input event (i.e. connect or disconnect).
    pub fn map(&self) -> (mapped: Option<MappedEvent>)
        ensures
            mapped == self@.mapped(),
    {
        match self.data {
            EventData::Axis(index, value) => match self.gamepad.mapping.map_axis(index) {
                Some(axis) => Some(MappedEvent::Axis(axis, value)),
                None => None,
            },
            EventData::Button(index, true) => match self.gamepad.mapping.map_button(index) {
                Some(button) => Some(MappedEvent::ButtonPress(button)),
                None => None,
            },
            EventData::Button(index, false) => match self.gamepad.mapping.map_button(index) {
                Some(button) => Some(MappedEvent::ButtonRelease(button)),
                None => None,
            },
            EventData::ButtonValue(index, value) => match self.gamepad.mapping.map_button(index) {
                Some(button) => Some(MappedEvent::ButtonValue(button, value)),
                None => None,
            },
            _ => None,
        }
    }
}

/// Only input from a gamepad of the standard layout has a standard name:
/// connections, disconnections and every event of a gamepad without a known
/// layout amount to no mapped event.
pub proof fn lemma_mapped_only_standard_input(event: EventView)
    ensures
        event.mapped() is Some ==> event.data.is_input() && event.gamepad.mapping
            == GamepadMappingType::Standard,
{
}

} // verus!
