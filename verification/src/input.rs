//! Keyboard axes: pairs of keys that push a value down or up.

use vstd::prelude::*;

verus! {

/// The keys the sandbox listens to.
#[derive(Clone, Copy, Debug, Hash, PartialEq, Eq, Structural)]
pub enum KeyCode {
    KeyA,
    KeyD,
    KeyE,
    KeyF,
    KeyQ,
    KeyS,
    KeyW,
    ArrowDown,
    ArrowUp,
    Escape,
    ShiftLeft,
    Space,
}

/// What an axis is in contracts.
pub struct AxisView {
    pub negative_pressed: bool,
    pub negative_button: KeyCode,
    pub positive_pressed: bool,
    pub positive_button: KeyCode,
}

impl AxisView {
    /// The axis after `key`, if it is one the sandbox listens to, was pressed
    /// or released. The positive button is looked at first.
    pub open spec fn processed(self, key: Option<KeyCode>, pressed: bool) -> AxisView {
        if key == Some(self.positive_button) {
            AxisView { positive_pressed: pressed, ..self }
        } else if key == Some(self.negative_button) {
            AxisView { negative_pressed: pressed, ..self }
        } else {
            self
        }
    }

    /// The value of the axis: -1, 0 or 1.
    pub open spec fn value(self) -> int {
        (if self.negative_pressed {
            -1int
        } else {
            0int
        }) + (if self.positive_pressed {
            1int
        } else {
            0int
        })
    }
}

/// Two keys that pull one value in opposite directions.
#[derive(Clone, Copy, Debug, PartialEq, Eq)]
pub struct Axis {
    negative_pressed: bool,
    negative_button: KeyCode,
    positive_pressed: bool,
    positive_button: KeyCode,
}

impl View for Axis {
    type V = AxisView;

    closed spec fn view(&self) -> AxisView {
        AxisView {
            negative_pressed: self.negative_pressed,
            negative_button: self.negative_button,
            positive_pressed: self.positive_pressed,
            positive_button: self.positive_button,
        }
    }
}

impl Axis {
    /// An axis with both keys released.
    pub fn new(negative_button: KeyCode, positive_button: KeyCode) -> (axis: Self)
        ensures
            axis@ == (AxisView {
                negative_pressed: false,
                negative_button,
                positive_pressed: false,
                positive_button,
            }),
    {
        Self { negative_button, positive_button, negative_pressed: false, positive_pressed: false }
    }

    /// Takes note that `key` was pressed or released. `None` stands for a
    /// key the sandbox does not listen to.
    pub fn process(&mut self, key: Option<KeyCode>, pressed: bool)
        ensures
            final(self)@ == old(self)@.processed(key, pressed),
    {
        match key {
            Some(code) => {
                if code == self.positive_button {
                    self.positive_pressed = pressed;
                } else if code == self.negative_button {
                    self.negative_pressed = pressed;
                }
            },
            None => {},
        }
    }

    /// The value of the axis: -1 while only the negative key is down, 1 while
    /// only the positive key is down, 0 otherwise.
    pub fn get(&self) -> (value: i8)
        ensures
            value == self@.value(),
    {
        let down: i8 = if self.negative_pressed { -1 } else { 0 };
        let up: i8 = if self.positive_pressed { 1 } else { 0 };
        down + up
    }
}

} // verus!
