//! Names for the buttons and axes of a controller, and the layouts that
//! relate them to raw indices.

use vstd::prelude::*;

verus! {

/// The layout a controller reports for its buttons and axes.
#[derive(Debug, Clone, Copy, PartialEq, Eq, Structural)]
pub enum GamepadMappingType {
    /// The controller follows no known layout.
    NoMapping,
    /// The controller follows the standard gamepad layout.
    Standard,
}

/// A named button on the standard gamepad.
#[derive(Debug, Clone, Copy, PartialEq, Eq, PartialOrd, Ord, Structural)]
pub enum Button {
    /// "A" on Xbox, "cross" on PlayStation, "B" on Nintendo.
    South,
    /// "B" on Xbox, "circle" on PlayStation, "A" on Nintendo.
    East,
    /// "X" on Xbox, "square" on PlayStation, "Y" on Nintendo.
    West,
    /// "Y" on Xbox, "triangle" on PlayStation, "X" on Nintendo.
    North,
    /// "LB" on Xbox, "L1" on PlayStation, "L" on Nintendo.
    LT1,
    /// "RB" on Xbox, "R1" on PlayStation, "R" on Nintendo.
    RT1,
    /// "LT" on Xbox, "L2" on PlayStation, "ZL" on Nintendo.
    LT2,
    /// "RT" on Xbox, "R2" on PlayStation, "ZR" on Nintendo.
    RT2,
    /// "Select" / "Back" / "View" / "Share"
    Select,
    /// "Start" / "Forward" / "Menu" / "Options"
    Start,
    /// Press the left stick, "L3" on PlayStation.
    LeftStick,
    /// Press the right stick, "R3" on PlayStation.
    RightStick,
    /// Up on the directional pad.
    Up,
    /// Down on the directional pad.
    Down,
    /// Left on the directional pad.
    Left,
    /// Right on the directional pad.
    Right,
    /// Home, "Xbox", or "PS", centered on the gamepad.
    Home,
}

/// A named axis on the standard gamepad.
#[derive(Debug, Clone, Copy, PartialEq, Eq, PartialOrd, Ord, Structural)]
pub enum Axis {
    /// From left (-1.0) to right (1.0).
    LeftStickX,
    /// From up (-1.0) to down (1.0).
    LeftStickY,
    /// From left (-1.0) to right (1.0).
    RightStickX,
    /// From up (-1.0) to down (1.0).
    RightStickY,
}

/// The buttons of the standard layout, each at its raw index.
pub open spec fn standard_buttons() -> Seq<Button> {
    seq![
        Button::South,
        Button::East,
        Button::West,
        Button::North,
        Button::LT1,
        Button::RT1,
        Button::LT2,
        Button::RT2,
        Button::Select,
        Button::Start,
        Button::LeftStick,
        Button::RightStick,
        Button::Up,
        Button::Down,
        Button::Left,
        Button::Right,
        Button::Home,
    ]
}

/// The axes of the standard layout, each at its raw index.
pub open spec fn standard_axes() -> Seq<Axis> {
    seq![Axis::LeftStickX, Axis::LeftStickY, Axis::RightStickX, Axis::RightStickY]
}

/// A relation between indices and names, for buttons and axes.
///
/// A layout is given by two partial tables, `button_at` and `axis_at`. The
/// lookups by index return the table's entry; the lookups by name return an
/// index whose entry is that name, and `None` only when no index has it.
pub trait Mapping {
    /// The name, if any, of the button at `index`.
    spec fn button_at(&self, index: usize) -> Option<Button>;

    /// The name, if any, of the axis at `index`.
    spec fn axis_at(&self, index: usize) -> Option<Axis>;

    /// Get the name (if known) of the button at this index.
    fn map_button(&self, index: usize) -> (button: Option<Button>)
        ensures
            button == self.button_at(index),
    ;

    /// Get the index (if known) of this button.
    fn button_index(&self, button: Button) -> (index: Option<usize>)
        ensures
            index matches Some(i) ==> self.button_at(i) == Some(button),
            index is None ==> forall|i: usize| self.button_at(i) != Some(button),
    ;

    /// Get the name (if known) of the axis at this index.
    fn map_axis(&self, index: usize) -> (axis: Option<Axis>)
        ensures
            axis == self.axis_at(index),
    ;

    /// Get the index (if known) of this axis.
    fn axis_index(&self, axis: Axis) -> (index: Option<usize>)
        ensures
            index matches Some(i) ==> self.axis_at(i) == Some(axis),
            index is None ==> forall|i: usize| self.axis_at(i) != Some(axis),
    ;
}

impl Mapping for GamepadMappingType {
    open spec fn button_at(&self, index: usize) -> Option<Button> {
        if *self == GamepadMappingType::Standard && index < standard_buttons().len() {
            Some(standard_buttons()[index as int])
        } else {
            None
        }
    }

    open spec fn axis_at(&self, index: usize) -> Option<Axis> {
        if *self == GamepadMappingType::Standard && index < standard_axes().len() {
            Some(standard_axes()[index as int])
        } else {
            None
        }
    }

    fn map_button(&self, index: usize) -> (button: Option<Button>) {
        match self {
            GamepadMappingType::Standard => match index {
                0 => Some(Button::South),
                1 => Some(Button::East),
                2 => Some(Button::West),
                3 => Some(Button::North),
                4 => Some(Button::LT1),
                5 => Some(Button::RT1),
                6 => Some(Button::LT2),
                7 => Some(Button::RT2),
                8 => Some(Button::Select),
                9 => Some(Button::Start),
                10 => Some(Button::LeftStick),
                11 => Some(Button::RightStick),
                12 => Some(Button::Up),
                13 => Some(Button::Down),
                14 => Some(Button::Left),
                15 => Some(Button::Right),
                16 => Some(Button::Home),
                _ => None,
            },
            GamepadMappingType::NoMapping => None,
        }
    }

    fn button_index(&self, button: Button) -> (index: Option<usize>)
        ensures
            index is Some <==> *self == GamepadMappingType::Standard,
    {
        match self {
            GamepadMappingType::Standard => match button {
                Button::South => Some(0),
                Button::East => Some(1),
                Button::West => Some(2),
                Button::North => Some(3),
                Button::LT1 => Some(4),
                Button::RT1 => Some(5),
                Button::LT2 => Some(6),
                Button::RT2 => Some(7),
                Button::Select => Some(8),
                Button::Start => Some(9),
                Button::LeftStick => Some(10),
                Button::RightStick => Some(11),
                Button::Up => Some(12),
                Button::Down => Some(13),
                Button::Left => Some(14),
                Button::Right => Some(15),
                Button::Home => Some(16),
            },
            GamepadMappingType::NoMapping => None,
        }
    }

    fn map_axis(&self, index: usize) -> (axis: Option<Axis>) {
        match self {
            GamepadMappingType::Standard => match index {
                0 => Some(Axis::LeftStickX),
                1 => Some(Axis::LeftStickY),
                2 => Some(Axis::RightStickX),
                3 => Some(Axis::RightStickY),
                _ => None,
            },
            GamepadMappingType::NoMapping => None,
        }
    }

    fn axis_index(&self, axis: Axis) -> (index: Option<usize>)
        ensures
            index is Some <==> *self == GamepadMappingType::Standard,
    {
        match self {
            GamepadMappingType::Standard => match axis {
                Axis::LeftStickX => Some(0),
                Axis::LeftStickY => Some(1),
                Axis::RightStickX => Some(2),
                Axis::RightStickY => Some(3),
            },
            GamepadMappingType::NoMapping => None,
        }
    }
}

/// No layout gives one name to two indices, so an index found for a name is
/// the only one: looking a name up by index and back again returns the index
/// one started from.
pub proof fn lemma_layout_injective(layout: GamepadMappingType, i: usize, j: usize)
    ensures
        layout.button_at(i) is Some && layout.button_at(i) == layout.button_at(j) ==> i == j,
        layout.axis_at(i) is Some && layout.axis_at(i) == layout.axis_at(j) ==> i == j,
{
}

} // verus!
