//! The remapping engine: shift-layer state machine, event classification,
//! binding resolution, and dispatch to the mode handlers.

use vstd::prelude::*;

use crate::button_diamond;
use crate::config::{spec_find_group, spec_resolve, Config, Input, Mode};
use crate::emit::{capabilities, spec_caps};
use crate::input::{Button, Event};
use crate::pad_right;
use crate::sink::{Axis, SinkOp};
use crate::trackpad_left;
use crate::{ConfigError, Error};

verus! {

/// The remapping engine. It owns the configuration, the index of the
/// current preset, the shift-layer state, and the designation of the shift
/// button.
pub struct Mapper {
    pub config: Config,
    /// The id of the active preset; resolution happens against it.
    pub preset: u32,
    /// The shift layer: `false` is unshifted, `true` is shifted. Toggled
    /// only by an edge of the configured shift button.
    pub shift: bool,
    /// The button whose press engages the shift layer and whose release
    /// disengages it, if one is configured.
    pub shift_button: Option<Button>,
}

/// The input slot a button edge originates from.
pub open spec fn spec_slot_of(b: Button) -> Input {
    match b {
        Button::A | Button::B | Button::X | Button::Y => Input::ButtonDiamond,
        Button::Up | Button::Down | Button::Left | Button::Right | Button::Pad => Input::TrackpadLeft,
        Button::Track => Input::TrackpadRight,
    }
}

/// The shift state after one event: a press of the configured shift button
/// engages the layer, its release disengages it; every other event leaves
/// the state alone.
pub open spec fn spec_shift_after(shift: bool, sb: Option<Button>, e: Event) -> bool {
    match e {
        Event::Button(b, press) => if sb == Some(b) {
            press
        } else {
            shift
        },
        _ => shift,
    }
}

/// The axis writes owed for a pad movement under a group's mode: absolute
/// samples for the joystick modes, relative deltas for the absolute-mouse
/// mode, and a mode mismatch for a mode with no movement semantics.
pub open spec fn spec_move_writes(m: Mode, x: i16, y: i16) -> Result<Seq<SinkOp>, Error> {
    match m {
        Mode::JoystickMove | Mode::MouseJoystick => Ok(seq![
            SinkOp::AxisWrite(Axis::X, x as i32),
            SinkOp::AxisWrite(Axis::Y, y as i32),
        ]),
        Mode::AbsoluteMouse => Ok(seq![
            SinkOp::RelativeWrite(Axis::X, x as i32),
            SinkOp::RelativeWrite(Axis::Y, y as i32),
        ]),
        _ => Err(Error::Config(ConfigError::BindingModeMismatch)),
    }
}

/// A pad movement dispatched through the binding graph: nothing when the
/// slot or the group is unconfigured, else the mode's axis writes.
pub open spec fn spec_move(
    c: Config,
    preset: u32,
    shift: bool,
    slot: Input,
    x: i16,
    y: i16,
) -> Result<Seq<SinkOp>, Error> {
    match spec_resolve(c, preset, slot, shift) {
        None => Ok(Seq::empty()),
        Some(id) => match spec_find_group(c.groups@, id) {
            None => Ok(Seq::empty()),
            Some(g) => spec_move_writes(g.mode, x, y),
        },
    }
}

/// The writes owed for one event, before the closing synchronize: classify
/// the event's control family, resolve the slot on the sampled shift layer,
/// and delegate to the family's handler. An unconfigured slot or group is a
/// no-op, not an error.
pub open spec fn spec_dispatch_writes(c: Config, preset: u32, shift: bool, e: Event) -> Result<
    Seq<SinkOp>,
    Error,
> {
    match e {
        Event::Button(btn, press) => match spec_resolve(c, preset, spec_slot_of(btn), shift) {
            None => Ok(Seq::empty()),
            Some(id) => match spec_find_group(c.groups@, id) {
                None => Ok(Seq::empty()),
                Some(g) => match btn {
                    Button::A | Button::B | Button::X | Button::Y => button_diamond::spec_button(
                        g.bindings,
                        btn,
                        press,
                    ),
                    Button::Up | Button::Down | Button::Left | Button::Right
                        | Button::Pad => trackpad_left::spec_button(g.bindings, btn, press),
                    Button::Track => pad_right::spec_button(g.bindings, press),
                },
            },
        },
        Event::PadLeft(x, y) => spec_move(c, preset, shift, Input::TrackpadLeft, x, y),
        Event::PadRight(x, y) => spec_move(c, preset, shift, Input::TrackpadRight, x, y),
        _ => Ok(Seq::empty()),
    }
}

/// What `send` returns: the dispatch writes of the event, closed by exactly
/// one synchronize, or the dispatch error.
pub open spec fn spec_send(m: Mapper, e: Event) -> Result<Seq<SinkOp>, Error> {
    match spec_dispatch_writes(m.config, m.preset, m.shift, e) {
        Ok(w) => Ok(w.push(SinkOp::Synchronize)),
        Err(er) => Err(er),
    }
}

/// Shift isolation: a dispatch depends only on the configuration, the
/// preset, and the shift state sampled when the dispatch starts. Engines
/// that agree on those three produce the same result, whatever their shift
/// button or their history; a toggle therefore affects only dispatches
/// issued after it.
pub proof fn lemma_shift_isolation(m1: Mapper, m2: Mapper, e: Event)
    requires
        m1.config == m2.config,
        m1.preset == m2.preset,
        m1.shift == m2.shift,
    ensures
        spec_send(m1, e) == spec_send(m2, e),
{
}

/// Only the configured shift button moves the shift layer: every other
/// event leaves it exactly where it was.
pub proof fn lemma_shift_untouched(shift: bool, sb: Option<Button>, e: Event)
    requires
        match e {
            Event::Button(b, _) => sb != Some(b),
            _ => true,
        },
    ensures
        spec_shift_after(shift, sb, e) == shift,
{
}

/// The core never emits a capability it did not declare: every
/// `SinkOp::Write` of a successful dispatch carries a code for which the
/// capability computation of the same configuration declares a button.
pub proof fn lemma_no_undeclared_write(
    m: Mapper,
    e: Event,
    ops: Seq<SinkOp>,
    k: int,
    code: u16,
    v: i32,
)
    requires
        spec_send(m, e) == Ok::<Seq<SinkOp>, Error>(ops),
        0 <= k < ops.len(),
        ops[k] == SinkOp::Write(code, v),
    ensures
        spec_caps(m.config).contains(SinkOp::DeclareButton(code)),
{
    crate::emit::lemma_caps_complete(m.config, code);
    let w = match spec_dispatch_writes(m.config, m.preset, m.shift, e) {
        Ok(w) => w,
        Err(_) => Seq::empty(),
    };
    assert(ops == w.push(SinkOp::Synchronize));
    assert(k < w.len());
    assert(w[k] == SinkOp::Write(code, v));
    match e {
        Event::Button(btn, press) => {
            match spec_resolve(m.config, m.preset, spec_slot_of(btn), m.shift) {
                None => {
                    assert(false);
                },
                Some(id) => match spec_find_group(m.config.groups@, id) {
                    None => {
                        assert(false);
                    },
                    Some(g) => {
                        let l = match btn {
                            Button::A | Button::B | Button::X | Button::Y => {
                                button_diamond::spec_diamond_list(g.bindings, btn)
                            },
                            Button::Up | Button::Down | Button::Left | Button::Right
                                | Button::Pad => trackpad_left::spec_left_list(g.bindings, btn),
                            Button::Track => pad_right::spec_right_list(g.bindings),
                        };
                        assert(w == crate::emit::spec_list_writes(l, press));
                        crate::emit::lemma_list_writes_as_code_writes(l, press);
                        let codes = crate::emit::spec_list_codes(l);
                        assert(w[k] == SinkOp::Write(codes[k], crate::emit::press_value(press)));
                        assert(codes[k] == code);
                        assert(codes.contains(code));
                        match btn {
                            Button::A | Button::B | Button::X | Button::Y => {
                                button_diamond::lemma_diamond_list_codes(g.bindings, btn, code)
                            },
                            Button::Up | Button::Down | Button::Left | Button::Right
                                | Button::Pad => trackpad_left::lemma_left_list_codes(
                                g.bindings,
                                btn,
                                code,
                            ),
                            Button::Track => pad_right::lemma_right_list_codes(g.bindings, code),
                        }
                        crate::config::lemma_find_group_member(m.config.groups@, id);
                        let i = choose|i: int|
                            0 <= i < m.config.groups@.len() && m.config.groups@[i].1 == g;
                        crate::emit::lemma_groups_codes_member(m.config.groups@, i, code);
                    },
                },
            }
        },
        Event::PadLeft(_, _) | Event::PadRight(_, _) => {
            assert(false);
        },
        _ => {
            assert(false);
        },
    }
}

impl Mapper {
    /// Build the engine over a configuration and compute, once, the
    /// capability declarations the sink owes the virtual device: see
    /// `spec_caps` and `lemma_caps_complete`.
    ///
    /// The engine starts on preset 0 with the shift layer disengaged.
    pub fn new(config: Config, shift_button: Option<Button>) -> (r: (Mapper, Vec<SinkOp>))
        ensures
            r.0.config == config,
            r.0.preset == 0,
            r.0.shift == false,
            r.0.shift_button == shift_button,
            r.1@ == spec_caps(config),
    {
        let ops = capabilities(&config);
        (Mapper { config, preset: 0, shift: false, shift_button }, ops)
    }

    /// Switch the engine to another preset; resolution from the next
    /// dispatch on happens against it. Nothing else changes.
    pub fn set_preset(&mut self, preset: u32)
        ensures
            final(self).preset == preset,
            final(self).config == old(self).config,
            final(self).shift == old(self).shift,
            final(self).shift_button == old(self).shift_button,
    {
        self.preset = preset;
    }

    /// The axis writes for a pad movement on a slot, under the sampled
    /// shift state.
    fn moves(&self, slot: Input, shift: bool, x: i16, y: i16) -> (r: Result<Vec<SinkOp>, Error>)
        ensures
            spec_move(self.config, self.preset, shift, slot, x, y) matches Ok(w) ==> (r matches Ok(
                v,
            ) && v@ == w),
            spec_move(self.config, self.preset, shift, slot, x, y) matches Err(e) ==> r == Err::<
                Vec<SinkOp>,
                Error,
            >(e),
    {
        let id = match self.config.resolve(self.preset, slot, shift) {
            Some(id) => id,
            None => {
                return Ok(Vec::new());
            },
        };
        let g = match self.config.group_of(id) {
            Some(g) => g,
            None => {
                return Ok(Vec::new());
            },
        };
        match g.mode {
            Mode::JoystickMove | Mode::MouseJoystick => {
                let mut v: Vec<SinkOp> = Vec::new();
                v.push(SinkOp::AxisWrite(Axis::X, x as i32));
                v.push(SinkOp::AxisWrite(Axis::Y, y as i32));
                proof {
                    assert(v@ =~= seq![
                        SinkOp::AxisWrite(Axis::X, x as i32),
                        SinkOp::AxisWrite(Axis::Y, y as i32),
                    ]);
                }
                Ok(v)
            },
            Mode::AbsoluteMouse => {
                let mut v: Vec<SinkOp> = Vec::new();
                v.push(SinkOp::RelativeWrite(Axis::X, x as i32));
                v.push(SinkOp::RelativeWrite(Axis::Y, y as i32));
                proof {
                    assert(v@ =~= seq![
                        SinkOp::RelativeWrite(Axis::X, x as i32),
                        SinkOp::RelativeWrite(Axis::Y, y as i32),
                    ]);
                }
                Ok(v)
            },
            _ => Err(Error::Config(ConfigError::BindingModeMismatch)),
        }
    }

    /// The writes for one event under the sampled shift state, before the
    /// closing synchronize.
    fn dispatch_writes(&self, shift: bool, event: Event) -> (r: Result<Vec<SinkOp>, Error>)
        ensures
            spec_dispatch_writes(self.config, self.preset, shift, event) matches Ok(w) ==> (r
                matches Ok(v) && v@ == w),
            spec_dispatch_writes(self.config, self.preset, shift, event) matches Err(e) ==> r
                == Err::<Vec<SinkOp>, Error>(e),
    {
        match event {
            Event::Button(btn, press) => {
                let slot: Input = match btn {
                    Button::A | Button::B | Button::X | Button::Y => Input::ButtonDiamond,
                    Button::Up | Button::Down | Button::Left | Button::Right
                        | Button::Pad => Input::TrackpadLeft,
                    Button::Track => Input::TrackpadRight,
                };
                let id = match self.config.resolve(self.preset, slot, shift) {
                    Some(id) => id,
                    None => {
                        return Ok(Vec::new());
                    },
                };
                let g = match self.config.group_of(id) {
                    Some(g) => g,
                    None => {
                        return Ok(Vec::new());
                    },
                };
                match btn {
                    Button::A | Button::B | Button::X | Button::Y => button_diamond::button(
                        &g.bindings,
                        btn,
                        press,
                    ),
                    Button::Up | Button::Down | Button::Left | Button::Right
                        | Button::Pad => trackpad_left::button(&g.bindings, btn, press),
                    Button::Track => pad_right::button(&g.bindings, btn, press),
                }
            },
            Event::PadLeft(x, y) => self.moves(Input::TrackpadLeft, shift, x, y),
            Event::PadRight(x, y) => self.moves(Input::TrackpadRight, shift, x, y),
            _ => Ok(Vec::new()),
        }
    }

    /// Dispatch one event.
    ///
    /// The shift state is sampled once at dispatch start and governs the
    /// whole dispatch; the event's own effect on the shift layer is visible
    /// only to later dispatches. On success the returned operations end
    /// with exactly one synchronize, so the sink commits everything written
    /// for this one source event as one atomic frame. An unconfigured slot
    /// performs zero writes and succeeds; a bindings variant foreign to the
    /// handling family fails with `BindingModeMismatch`.
    pub fn send(&mut self, event: Event) -> (r: Result<Vec<SinkOp>, Error>)
        ensures
            final(self).config == old(self).config,
            final(self).preset == old(self).preset,
            final(self).shift_button == old(self).shift_button,
            final(self).shift == spec_shift_after(old(self).shift, old(self).shift_button, event),
            spec_send(*old(self), event) matches Ok(ops) ==> (r matches Ok(v) && v@ == ops),
            spec_send(*old(self), event) matches Err(e) ==> r == Err::<Vec<SinkOp>, Error>(e),
    {
        let shift = self.shift;
        let inner = self.dispatch_writes(shift, event);
        let next = match event {
            Event::Button(b, press) => match self.shift_button {
                Some(sb) => if sb == b {
                    press
                } else {
                    shift
                },
                None => shift,
            },
            _ => shift,
        };
        self.shift = next;
        match inner {
            Ok(mut v) => {
                v.push(SinkOp::Synchronize);
                Ok(v)
            },
            Err(e) => Err(e),
        }
    }
}

} // verus!
