//! Physical controls of the device and the discrete events derived from
//! snapshot diffing.

use vstd::prelude::*;

verus! {

/// A physical button of the controller.
///
/// `A`/`B`/`X`/`Y` form the button diamond, `Up`/`Down`/`Left`/`Right` and
/// `Pad` are the boundary regions and click of the left trackpad, and
/// `Track` is the click of the right trackpad.
#[derive(Clone, Copy, Debug, PartialEq, Eq, Structural)]
pub enum Button {
    A,
    B,
    X,
    Y,
    Up,
    Down,
    Left,
    Right,
    Pad,
    Track,
}

/// The bit of the report's button mask that carries a button.
pub open spec fn button_mask(b: Button) -> u32 {
    match b {
        Button::A => 0x1,
        Button::B => 0x2,
        Button::X => 0x4,
        Button::Y => 0x8,
        Button::Up => 0x10,
        Button::Down => 0x20,
        Button::Left => 0x40,
        Button::Right => 0x80,
        Button::Pad => 0x100,
        Button::Track => 0x200,
    }
}

/// A discrete input event, derived once per change between two consecutive
/// state snapshots.
#[derive(Clone, Copy, Debug, PartialEq, Eq, Structural)]
pub enum Event {
    /// A button edge: the button and whether it is now pressed.
    Button(Button, bool),
    /// The left trackpad moved; carries the new sample.
    PadLeft(i16, i16),
    /// The right trackpad moved; carries the new sample.
    PadRight(i16, i16),
    /// The left trigger scalar changed; carries the new value.
    TriggerLeft(u8),
    /// The right trigger scalar changed; carries the new value.
    TriggerRight(u8),
    /// The power flag changed; `Power(true)` signals a wake or cold start.
    Power(bool),
}

} // verus!
