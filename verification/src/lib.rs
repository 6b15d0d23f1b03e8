//! Edge-triggered gamepad events from a poll-only controller source.
//!
//! A controller source can only be asked for the present state of each
//! controller slot. The [`Monitor`] keeps the last state it saw per slot,
//! compares it with each new report, and turns the differences into a stream
//! of events: connections, disconnections, axis movements and button changes.
//!
//! The library reads nothing by itself. Its caller asks the source and hands
//! the report, one [`RawGamepad`] or `None` per slot, to [`Monitor::poll`],
//! [`Monitor::poll_mapped`] or [`Monitor::fetch_update`].
//!
//! Analog values and timestamps are IEEE 754 binary64 numbers carried as their
//! bit patterns (`u64`). Two readings of an axis or a button differ when their
//! bits differ, so a NaN or a change of sign on zero is a change. Timestamps
//! are compared as numbers.
//!
//! The modules:
//! - [`float_bits`]: numbers as bit patterns, and their equality as numbers;
//! - [`mapping`]: the standard names of buttons and axes, and the layouts;
//! - [`gamepad`]: readings, descriptions, states, and the changes between two
//!   states;
//! - [`snapshot`]: a state without button values;
//! - [`event`]: the events, raw and under the standard names;
//! - [`monitor`]: the slot table and the event queue;
//! - [`session`]: what a monitor reports over a run of reports.

pub mod event;
pub mod float_bits;
pub mod gamepad;
pub mod mapping;
pub mod monitor;
pub mod session;
pub mod snapshot;

pub use event::{Event, EventData, EventView, MappedEvent};
pub use float_bits::{same_number, BASELINE_TIMESTAMP, ZERO};
pub use gamepad::{
    Channel, GamepadDescription, GamepadDescriptionView, GamepadState, GamepadStateChange,
    GamepadStateView, RawGamepad, RawGamepadView,
};
pub use mapping::{Axis, Button, GamepadMappingType, Mapping};
pub use monitor::{ConnectedPadView, Monitor, MonitorView};
pub use snapshot::{Change, Snapshot, SnapshotView};
