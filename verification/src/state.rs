//! Decoding of the fixed-size raw report into a structured snapshot, and
//! edge detection between consecutive snapshots.
//!
//! Report layout (64 bytes, little-endian):
//! - byte 2: report-kind discriminant, always `0x01` for a state report;
//! - bytes 4..8: monotonic sequence marker (`u32`);
//! - bytes 8..12: button bitmask (`u32`, one bit per [`Button`]);
//! - byte 12: left trigger scalar, byte 13: right trigger scalar;
//! - bytes 16..20: left pad `(x, y)` (`i16` each);
//! - bytes 20..24: right pad `(x, y)` (`i16` each);
//! - byte 24: power flag (0 or 1), byte 25: battery flag (0 or 1).
//!
//! Any other length, discriminant, or flag byte is a protocol error.

use vstd::prelude::*;

use crate::bytes::{read_i16_le, read_u32_le, spec_i16_le, spec_u32_le};
use crate::input::{button_mask, Button, Event};
use crate::util::{lemma_add_empty, lemma_add_singleton};
use crate::{Error, ProtocolError};

verus! {

/// One immutable snapshot of the controller, decoded from a raw report.
#[derive(Clone, Copy, Debug, PartialEq, Eq, Structural)]
pub struct State {
    /// Monotonic sequence marker assigned by the device.
    pub sequence: u32,
    /// Button bitmask; see [`button_mask`] for the bit of each button.
    pub buttons: u32,
    /// Left trigger scalar.
    pub trigger_left: u8,
    /// Right trigger scalar.
    pub trigger_right: u8,
    /// Left pad sample.
    pub pad_left_x: i16,
    pub pad_left_y: i16,
    /// Right pad sample.
    pub pad_right_x: i16,
    pub pad_right_y: i16,
    /// Power flag; `true` signals a wake or cold-start condition.
    pub power: bool,
    /// Battery flag; `true` when the device runs on battery.
    pub battery: bool,
}

/// What `decode` returns for every possible byte sequence.
pub open spec fn spec_decode(s: Seq<u8>) -> Result<State, Error> {
    if s.len() != 64 {
        Err(Error::Protocol(ProtocolError::BadLength))
    } else if s[2] != 1 {
        Err(Error::Protocol(ProtocolError::BadDiscriminant))
    } else if s[24] > 1 || s[25] > 1 {
        Err(Error::Protocol(ProtocolError::BadFlag))
    } else {
        Ok(State {
            sequence: spec_u32_le(s[4], s[5], s[6], s[7]),
            buttons: spec_u32_le(s[8], s[9], s[10], s[11]),
            trigger_left: s[12],
            trigger_right: s[13],
            pad_left_x: spec_i16_le(s[16], s[17]),
            pad_left_y: spec_i16_le(s[18], s[19]),
            pad_right_x: spec_i16_le(s[20], s[21]),
            pad_right_y: spec_i16_le(s[22], s[23]),
            power: s[24] == 1,
            battery: s[25] == 1,
        })
    }
}

/// Decode one raw report into a [`State`].
///
/// Decoding is pure and total: the result is exactly `spec_decode(report@)`,
/// so two calls on equal reports always return equal values.
pub fn decode(report: &Vec<u8>) -> (r: Result<State, Error>)
    ensures
        r == spec_decode(report@),
{
    if report.len() != 64 {
        return Err(Error::Protocol(ProtocolError::BadLength));
    }
    if report[2] != 1 {
        return Err(Error::Protocol(ProtocolError::BadDiscriminant));
    }
    if report[24] > 1 || report[25] > 1 {
        return Err(Error::Protocol(ProtocolError::BadFlag));
    }
    Ok(State {
        sequence: read_u32_le(report[4], report[5], report[6], report[7]),
        buttons: read_u32_le(report[8], report[9], report[10], report[11]),
        trigger_left: report[12],
        trigger_right: report[13],
        pad_left_x: read_i16_le(report[16], report[17]),
        pad_left_y: read_i16_le(report[18], report[19]),
        pad_right_x: read_i16_le(report[20], report[21]),
        pad_right_y: read_i16_le(report[22], report[23]),
        power: report[24] == 1,
        battery: report[25] == 1,
    })
}

/// Decoding on equal inputs yields equal results: `decode` is deterministic,
/// since its postcondition pins the result to `spec_decode`.
pub proof fn lemma_decode_deterministic(r1: Seq<u8>, r2: Seq<u8>)
    requires
        r1 == r2,
    ensures
        spec_decode(r1) == spec_decode(r2),
{
}

/// The (empty or singleton) event sequence for one button's bit between two
/// button masks.
pub open spec fn spec_button_edge(prev: u32, cur: u32, b: Button) -> Seq<Event> {
    if prev & button_mask(b) != cur & button_mask(b) {
        seq![Event::Button(b, cur & button_mask(b) != 0)]
    } else {
        seq![]
    }
}

/// The event owed for one changed scalar or pair field, as an empty or
/// singleton sequence.
pub open spec fn spec_field_edge(changed: bool, e: Event) -> Seq<Event> {
    if changed {
        seq![e]
    } else {
        seq![]
    }
}

/// Every event owed for the transition between two snapshots: one per
/// changed button bit (in mask order), then triggers, pads, and power.
pub open spec fn spec_diff(prev: State, cur: State) -> Seq<Event> {
    spec_button_edge(prev.buttons, cur.buttons, Button::A)
        + spec_button_edge(prev.buttons, cur.buttons, Button::B)
        + spec_button_edge(prev.buttons, cur.buttons, Button::X)
        + spec_button_edge(prev.buttons, cur.buttons, Button::Y)
        + spec_button_edge(prev.buttons, cur.buttons, Button::Up)
        + spec_button_edge(prev.buttons, cur.buttons, Button::Down)
        + spec_button_edge(prev.buttons, cur.buttons, Button::Left)
        + spec_button_edge(prev.buttons, cur.buttons, Button::Right)
        + spec_button_edge(prev.buttons, cur.buttons, Button::Pad)
        + spec_button_edge(prev.buttons, cur.buttons, Button::Track)
        + spec_field_edge(
            prev.trigger_left != cur.trigger_left,
            Event::TriggerLeft(cur.trigger_left),
        )
        + spec_field_edge(
            prev.trigger_right != cur.trigger_right,
            Event::TriggerRight(cur.trigger_right),
        )
        + spec_field_edge(
            prev.pad_left_x != cur.pad_left_x || prev.pad_left_y != cur.pad_left_y,
            Event::PadLeft(cur.pad_left_x, cur.pad_left_y),
        )
        + spec_field_edge(
            prev.pad_right_x != cur.pad_right_x || prev.pad_right_y != cur.pad_right_y,
            Event::PadRight(cur.pad_right_x, cur.pad_right_y),
        )
        + spec_field_edge(prev.power != cur.power, Event::Power(cur.power))
}

/// Append the edge events of one button bit, in mask order.
fn push_button_edge(r: &mut Vec<Event>, prev: u32, cur: u32, mask: u32, b: Button)
    requires
        button_mask(b) == mask,
    ensures
        final(r)@ == old(r)@ + spec_button_edge(prev, cur, b),
{
    if prev & mask != cur & mask {
        r.push(Event::Button(b, cur & mask != 0));
        proof {
            lemma_add_singleton(old(r)@, Event::Button(b, cur & mask != 0));
        }
    } else {
        proof {
            lemma_add_empty::<Event>(old(r)@);
        }
    }
}

/// Append the event of one changed field.
fn push_field_edge(r: &mut Vec<Event>, changed: bool, e: Event)
    ensures
        final(r)@ == old(r)@ + spec_field_edge(changed, e),
{
    if changed {
        r.push(e);
        proof {
            lemma_add_singleton(old(r)@, e);
        }
    } else {
        proof {
            lemma_add_empty::<Event>(old(r)@);
        }
    }
}

/// Compare two snapshots field by field and emit one event per change.
///
/// Unchanged fields emit nothing; every crossing of a press/release boundary
/// emits exactly one event, with no coalescing.
pub fn diff(prev: &State, cur: &State) -> (r: Vec<Event>)
    ensures
        r@ == spec_diff(*prev, *cur),
{
    let mut r: Vec<Event> = Vec::new();
    push_button_edge(&mut r, prev.buttons, cur.buttons, 0x1, Button::A);
    push_button_edge(&mut r, prev.buttons, cur.buttons, 0x2, Button::B);
    push_button_edge(&mut r, prev.buttons, cur.buttons, 0x4, Button::X);
    push_button_edge(&mut r, prev.buttons, cur.buttons, 0x8, Button::Y);
    push_button_edge(&mut r, prev.buttons, cur.buttons, 0x10, Button::Up);
    push_button_edge(&mut r, prev.buttons, cur.buttons, 0x20, Button::Down);
    push_button_edge(&mut r, prev.buttons, cur.buttons, 0x40, Button::Left);
    push_button_edge(&mut r, prev.buttons, cur.buttons, 0x80, Button::Right);
    push_button_edge(&mut r, prev.buttons, cur.buttons, 0x100, Button::Pad);
    push_button_edge(&mut r, prev.buttons, cur.buttons, 0x200, Button::Track);
    push_field_edge(
        &mut r,
        prev.trigger_left != cur.trigger_left,
        Event::TriggerLeft(cur.trigger_left),
    );
    push_field_edge(
        &mut r,
        prev.trigger_right != cur.trigger_right,
        Event::TriggerRight(cur.trigger_right),
    );
    push_field_edge(
        &mut r,
        prev.pad_left_x != cur.pad_left_x || prev.pad_left_y != cur.pad_left_y,
        Event::PadLeft(cur.pad_left_x, cur.pad_left_y),
    );
    push_field_edge(
        &mut r,
        prev.pad_right_x != cur.pad_right_x || prev.pad_right_y != cur.pad_right_y,
        Event::PadRight(cur.pad_right_x, cur.pad_right_y),
    );
    push_field_edge(&mut r, prev.power != cur.power, Event::Power(cur.power));
    proof {
        assert(Seq::<Event>::empty() + spec_button_edge(prev.buttons, cur.buttons, Button::A)
            =~= spec_button_edge(prev.buttons, cur.buttons, Button::A));
    }
    r
}

/// Identical snapshots produce no event at all.
pub proof fn lemma_diff_identical(s: State)
    ensures
        spec_diff(s, s) == Seq::<Event>::empty(),
{
    assert(spec_diff(s, s) =~= Seq::<Event>::empty());
}

/// A transition that changes exactly one button bit and nothing else yields
/// exactly one event: the edge of that button, with its new pressed value.
pub proof fn lemma_diff_single_button(prev: State, cur: State, b: Button)
    requires
        prev.buttons & button_mask(b) != cur.buttons & button_mask(b),
        forall|b2: Button|
            b2 != b ==> prev.buttons & button_mask(b2) == cur.buttons & button_mask(b2),
        prev.trigger_left == cur.trigger_left,
        prev.trigger_right == cur.trigger_right,
        prev.pad_left_x == cur.pad_left_x,
        prev.pad_left_y == cur.pad_left_y,
        prev.pad_right_x == cur.pad_right_x,
        prev.pad_right_y == cur.pad_right_y,
        prev.power == cur.power,
    ensures
        spec_diff(prev, cur) == seq![
            Event::Button(b, cur.buttons & button_mask(b) != 0),
        ],
{
    assert forall|b2: Button| b2 != b implies spec_button_edge(
        prev.buttons,
        cur.buttons,
        b2,
    ) == Seq::<Event>::empty() by {
        assert(prev.buttons & button_mask(b2) == cur.buttons & button_mask(b2));
        assert(spec_button_edge(prev.buttons, cur.buttons, b2) =~= Seq::<Event>::empty());
    }
    assert(spec_diff(prev, cur) =~= seq![Event::Button(b, cur.buttons & button_mask(b) != 0)]);
}

} // verus!
