//! Tests for the binding configuration, the capability computation, the
//! mode handlers, and the remapping engine.

use steamy::config::{Binding, Bindings, Config, Group, Input, Mode, Preset, Source};
use steamy::emit::capabilities;
use steamy::input::{Button, Event};
use steamy::mapper::Mapper;
use steamy::pad_right::PadRight;
use steamy::sink::{Axis, SinkOp};
use steamy::{button_diamond, trackpad_left};
use steamy::{ConfigError, Error};

fn four_buttons(a: Vec<Binding>, b: Vec<Binding>, x: Vec<Binding>, y: Vec<Binding>) -> Group {
    Group { mode: Mode::FourButtons, bindings: Bindings::FourButtons { a, b, x, y } }
}

fn dpad(
    north: Vec<Binding>,
    south: Vec<Binding>,
    east: Vec<Binding>,
    west: Vec<Binding>,
    click: Vec<Binding>,
) -> Group {
    Group { mode: Mode::DPad, bindings: Bindings::DPad { north, south, east, west, click } }
}

fn source(input: Input, shift: bool, group: u32) -> Source {
    Source { input, active: true, shift, group }
}

fn config_of(sources: Vec<Source>, groups: Vec<(u32, Group)>) -> Config {
    Config { presets: vec![(0, Preset { sources })], groups }
}

#[test]
fn resolve_finds_the_matching_source() {
    let config = config_of(
        vec![
            source(Input::TrackpadLeft, false, 3),
            source(Input::ButtonDiamond, false, 7),
            source(Input::ButtonDiamond, true, 8),
        ],
        vec![(7, four_buttons(vec![Binding::Key(30)], vec![], vec![], vec![]))],
    );
    assert_eq!(config.resolve(0, Input::ButtonDiamond, false), Some(7));
    assert_eq!(config.resolve(0, Input::ButtonDiamond, true), Some(8));
    assert_eq!(config.resolve(0, Input::TrackpadRight, false), None);
    assert_eq!(config.resolve(1, Input::ButtonDiamond, false), None);
}

#[test]
fn resolve_skips_inactive_sources() {
    let mut s = source(Input::ButtonDiamond, false, 7);
    s.active = false;
    let config = config_of(vec![s], vec![]);
    assert_eq!(config.resolve(0, Input::ButtonDiamond, false), None);
}

#[test]
fn bindings_of_missing_group_is_none() {
    let config = config_of(vec![], vec![]);
    assert!(config.bindings_of(7).is_none());
}

#[test]
fn press_writes_then_one_synchronize() {
    // Scenario: sub-button A bound to one virtual code; a press writes
    // (code, 1) and then synchronizes exactly once.
    let config = config_of(
        vec![source(Input::ButtonDiamond, false, 7)],
        vec![(7, four_buttons(vec![Binding::Key(30)], vec![], vec![], vec![]))],
    );
    let (mut m, _) = Mapper::new(config, None);
    let ops = m.send(Event::Button(Button::A, true)).unwrap();
    assert_eq!(ops, vec![SinkOp::Write(30, 1), SinkOp::Synchronize]);
    let ops = m.send(Event::Button(Button::A, false)).unwrap();
    assert_eq!(ops, vec![SinkOp::Write(30, 0), SinkOp::Synchronize]);
}

#[test]
fn unconfigured_slot_is_a_successful_no_op() {
    // Scenario: no source for ButtonDiamond/active/unshifted performs zero
    // writes and returns success.
    let config = config_of(vec![], vec![]);
    let (mut m, _) = Mapper::new(config, None);
    let ops = m.send(Event::Button(Button::A, true)).unwrap();
    assert_eq!(ops, vec![SinkOp::Synchronize]);
}

#[test]
fn foreign_bindings_variant_is_a_mode_mismatch() {
    // A bindings variant foreign to the handling family always surfaces
    // BindingModeMismatch, never a silent no-op.
    let group = Group {
        mode: Mode::AbsoluteMouse,
        bindings: Bindings::AbsoluteMouse { click: vec![Binding::Key(1)], double: vec![] },
    };
    let config = config_of(vec![source(Input::ButtonDiamond, false, 7)], vec![(7, group)]);
    let (mut m, _) = Mapper::new(config, None);
    assert_eq!(
        m.send(Event::Button(Button::A, true)),
        Err(Error::Config(ConfigError::BindingModeMismatch))
    );
}

#[test]
fn chord_writes_follow_declared_order() {
    let config = config_of(
        vec![source(Input::ButtonDiamond, false, 7)],
        vec![(
            7,
            four_buttons(
                vec![Binding::Chord(vec![4, 5]), Binding::Key(6)],
                vec![],
                vec![],
                vec![],
            ),
        )],
    );
    let (mut m, _) = Mapper::new(config, None);
    let ops = m.send(Event::Button(Button::A, true)).unwrap();
    assert_eq!(
        ops,
        vec![
            SinkOp::Write(4, 1),
            SinkOp::Write(5, 1),
            SinkOp::Write(6, 1),
            SinkOp::Synchronize,
        ]
    );
}

#[test]
fn action_bindings_emit_nothing() {
    let config = config_of(
        vec![source(Input::ButtonDiamond, false, 7)],
        vec![(7, four_buttons(vec![Binding::Action(9), Binding::Key(2)], vec![], vec![], vec![]))],
    );
    let (mut m, _) = Mapper::new(config, None);
    let ops = m.send(Event::Button(Button::A, true)).unwrap();
    assert_eq!(ops, vec![SinkOp::Write(2, 1), SinkOp::Synchronize]);
}

#[test]
fn dpad_group_serves_the_diamond_by_direction() {
    let config = config_of(
        vec![source(Input::ButtonDiamond, false, 7)],
        vec![(
            7,
            dpad(vec![Binding::Key(1)], vec![Binding::Key(2)], vec![Binding::Key(3)], vec![
                Binding::Key(4),
            ], vec![]),
        )],
    );
    let (mut m, _) = Mapper::new(config, None);
    // A maps to south, Y to north.
    assert_eq!(
        m.send(Event::Button(Button::A, true)).unwrap(),
        vec![SinkOp::Write(2, 1), SinkOp::Synchronize]
    );
    assert_eq!(
        m.send(Event::Button(Button::Y, true)).unwrap(),
        vec![SinkOp::Write(1, 1), SinkOp::Synchronize]
    );
}

#[test]
fn left_trackpad_buttons_use_dpad_directions() {
    let config = config_of(
        vec![source(Input::TrackpadLeft, false, 7)],
        vec![(
            7,
            dpad(
                vec![Binding::Key(1)],
                vec![Binding::Key(2)],
                vec![Binding::Key(3)],
                vec![Binding::Key(4)],
                vec![Binding::Key(5)],
            ),
        )],
    );
    let (mut m, _) = Mapper::new(config, None);
    assert_eq!(
        m.send(Event::Button(Button::Up, true)).unwrap(),
        vec![SinkOp::Write(1, 1), SinkOp::Synchronize]
    );
    assert_eq!(
        m.send(Event::Button(Button::Right, true)).unwrap(),
        vec![SinkOp::Write(3, 1), SinkOp::Synchronize]
    );
    assert_eq!(
        m.send(Event::Button(Button::Pad, true)).unwrap(),
        vec![SinkOp::Write(5, 1), SinkOp::Synchronize]
    );
}

#[test]
fn joystick_move_writes_absolute_axes() {
    let group = Group {
        mode: Mode::JoystickMove,
        bindings: Bindings::JoystickMove { click: vec![] },
    };
    let config = config_of(vec![source(Input::TrackpadLeft, false, 7)], vec![(7, group)]);
    let (mut m, _) = Mapper::new(config, None);
    let ops = m.send(Event::PadLeft(-5000, 1200)).unwrap();
    assert_eq!(
        ops,
        vec![
            SinkOp::AxisWrite(Axis::X, -5000),
            SinkOp::AxisWrite(Axis::Y, 1200),
            SinkOp::Synchronize,
        ]
    );
}

#[test]
fn absolute_mouse_move_writes_relative_axes() {
    let group = Group {
        mode: Mode::AbsoluteMouse,
        bindings: Bindings::AbsoluteMouse { click: vec![], double: vec![] },
    };
    let config = config_of(vec![source(Input::TrackpadRight, false, 7)], vec![(7, group)]);
    let (mut m, _) = Mapper::new(config, None);
    let ops = m.send(Event::PadRight(3, -4)).unwrap();
    assert_eq!(
        ops,
        vec![
            SinkOp::RelativeWrite(Axis::X, 3),
            SinkOp::RelativeWrite(Axis::Y, -4),
            SinkOp::Synchronize,
        ]
    );
}

#[test]
fn movement_under_a_buttons_only_mode_is_a_mismatch() {
    let config = config_of(
        vec![source(Input::TrackpadLeft, false, 7)],
        vec![(7, four_buttons(vec![], vec![], vec![], vec![]))],
    );
    let (mut m, _) = Mapper::new(config, None);
    assert_eq!(
        m.send(Event::PadLeft(1, 1)),
        Err(Error::Config(ConfigError::BindingModeMismatch))
    );
}

#[test]
fn trigger_and_power_events_are_permissive_no_ops() {
    let config = config_of(vec![], vec![]);
    let (mut m, _) = Mapper::new(config, None);
    assert_eq!(m.send(Event::TriggerLeft(9)).unwrap(), vec![SinkOp::Synchronize]);
    assert_eq!(m.send(Event::Power(true)).unwrap(), vec![SinkOp::Synchronize]);
}

#[test]
fn shift_toggle_applies_only_to_later_dispatches() {
    // Unshifted layer: A -> 10; shifted layer: A -> 20. Track is the shift
    // button.
    let config = config_of(
        vec![
            source(Input::ButtonDiamond, false, 1),
            source(Input::ButtonDiamond, true, 2),
        ],
        vec![
            (1, four_buttons(vec![Binding::Key(10)], vec![], vec![], vec![])),
            (2, four_buttons(vec![Binding::Key(20)], vec![], vec![], vec![])),
        ],
    );
    let (mut m, _) = Mapper::new(config, Some(Button::Track));
    // Before the toggle: the unshifted group.
    assert_eq!(
        m.send(Event::Button(Button::A, true)).unwrap(),
        vec![SinkOp::Write(10, 1), SinkOp::Synchronize]
    );
    // The toggling press itself still dispatches with the state sampled at
    // its start (unshifted), and TrackpadRight is unconfigured: a no-op.
    assert_eq!(
        m.send(Event::Button(Button::Track, true)).unwrap(),
        vec![SinkOp::Synchronize]
    );
    // After the toggle: the shifted group.
    assert_eq!(
        m.send(Event::Button(Button::A, true)).unwrap(),
        vec![SinkOp::Write(20, 1), SinkOp::Synchronize]
    );
    // Release disengages the layer.
    assert_eq!(
        m.send(Event::Button(Button::Track, false)).unwrap(),
        vec![SinkOp::Synchronize]
    );
    assert_eq!(
        m.send(Event::Button(Button::A, true)).unwrap(),
        vec![SinkOp::Write(10, 1), SinkOp::Synchronize]
    );
}

#[test]
fn unshifted_layer_with_no_shift_group_falls_back_to_no_mapping() {
    let config = config_of(
        vec![source(Input::ButtonDiamond, false, 1)],
        vec![(1, four_buttons(vec![Binding::Key(10)], vec![], vec![], vec![]))],
    );
    let (mut m, _) = Mapper::new(config, Some(Button::Track));
    assert_eq!(m.send(Event::Button(Button::Track, true)).unwrap(), vec![SinkOp::Synchronize]);
    // Shift engaged, no shifted source: no mapping, still a success.
    assert_eq!(m.send(Event::Button(Button::A, true)).unwrap(), vec![SinkOp::Synchronize]);
}

#[test]
fn capability_set_covers_exactly_the_raw_emittable_bindings() {
    // One joystick group and one four-button group: the capability set holds
    // the axis declarations of the modes and one button declaration per raw
    // code; the action token contributes nothing.
    let jm = Group {
        mode: Mode::JoystickMove,
        bindings: Bindings::JoystickMove { click: vec![Binding::Key(5), Binding::Action(9)] },
    };
    let fb = four_buttons(vec![Binding::Chord(vec![1, 2])], vec![], vec![], vec![]);
    let config = config_of(vec![], vec![(1, jm), (2, fb)]);
    let caps = capabilities(&config);
    assert_eq!(
        caps,
        vec![
            SinkOp::DeclareAxis(Axis::X, -32768, 32767, 16, 128),
            SinkOp::DeclareAxis(Axis::Y, -32768, 32767, 16, 128),
            SinkOp::DeclareButton(5),
            SinkOp::DeclareButton(1),
            SinkOp::DeclareButton(2),
        ]
    );
}

#[test]
fn capabilities_of_action_only_config_declare_no_button() {
    let fb = four_buttons(vec![Binding::Action(1)], vec![Binding::Action(2)], vec![], vec![]);
    let config = config_of(vec![], vec![(1, fb)]);
    assert_eq!(capabilities(&config), Vec::<SinkOp>::new());
}

#[test]
fn capabilities_declare_relative_axes_for_absolute_mouse() {
    let group = Group {
        mode: Mode::AbsoluteMouse,
        bindings: Bindings::AbsoluteMouse { click: vec![], double: vec![] },
    };
    let config = config_of(vec![], vec![(1, group)]);
    assert_eq!(
        capabilities(&config),
        vec![SinkOp::DeclareRelative(Axis::X), SinkOp::DeclareRelative(Axis::Y)]
    );
}

#[test]
fn capabilities_cover_touch_menu_and_scroll_wheel() {
    let tm = Group {
        mode: Mode::TouchMenu,
        bindings: Bindings::TouchMenu {
            buttons: vec![vec![Binding::Key(11)], vec![Binding::Key(12), Binding::Action(1)]],
        },
    };
    let sw = Group {
        mode: Mode::ScrollWheel,
        bindings: Bindings::ScrollWheel {
            cw: vec![Binding::Key(21)],
            ccw: vec![Binding::Key(22)],
            click: vec![],
        },
    };
    let config = config_of(vec![], vec![(1, tm), (2, sw)]);
    assert_eq!(
        capabilities(&config),
        vec![
            SinkOp::DeclareButton(11),
            SinkOp::DeclareButton(12),
            SinkOp::DeclareButton(21),
            SinkOp::DeclareButton(22),
        ]
    );
}

#[test]
fn diamond_handler_rejects_foreign_variants() {
    let bs = Bindings::Trigger { click: vec![Binding::Key(1)] };
    assert_eq!(
        button_diamond::button(&bs, Button::A, true),
        Err(Error::Config(ConfigError::BindingModeMismatch))
    );
}

#[test]
fn left_handler_rejects_foreign_variants() {
    let bs = Bindings::FourButtons { a: vec![], b: vec![], x: vec![], y: vec![] };
    assert_eq!(
        trackpad_left::button(&bs, Button::Up, true),
        Err(Error::Config(ConfigError::BindingModeMismatch))
    );
}

#[test]
fn pad_right_selects_layer_by_shift_flag() {
    let normal = Group {
        mode: Mode::AbsoluteMouse,
        bindings: Bindings::AbsoluteMouse { click: vec![Binding::Key(1)], double: vec![] },
    };
    let shifted = Group {
        mode: Mode::AbsoluteMouse,
        bindings: Bindings::AbsoluteMouse { click: vec![Binding::Key(2)], double: vec![] },
    };
    let mut pr = PadRight::load(Some(normal), Some(shifted)).unwrap();
    assert_eq!(
        pr.button(Button::Track, true).unwrap(),
        vec![SinkOp::Write(1, 1)]
    );
    pr.shifted = true;
    assert_eq!(
        pr.button(Button::Track, true).unwrap(),
        vec![SinkOp::Write(2, 1)]
    );
}

#[test]
fn pad_right_without_layer_does_nothing() {
    let pr = PadRight::load(None, None).unwrap();
    assert_eq!(pr.button(Button::Track, true).unwrap(), Vec::<SinkOp>::new());
    assert!(pr.bindings().is_none());
}

#[test]
fn pad_right_rejects_foreign_variants() {
    let group = Group {
        mode: Mode::FourButtons,
        bindings: Bindings::FourButtons { a: vec![], b: vec![], x: vec![], y: vec![] },
    };
    let pr = PadRight::load(Some(group), None).unwrap();
    assert_eq!(
        pr.button(Button::Track, true),
        Err(Error::Config(ConfigError::BindingModeMismatch))
    );
}

#[test]
fn switching_presets_changes_resolution() {
    let config = Config {
        presets: vec![
            (0, Preset { sources: vec![source(Input::ButtonDiamond, false, 1)] }),
            (5, Preset { sources: vec![source(Input::ButtonDiamond, false, 2)] }),
        ],
        groups: vec![
            (1, four_buttons(vec![Binding::Key(10)], vec![], vec![], vec![])),
            (2, four_buttons(vec![Binding::Key(20)], vec![], vec![], vec![])),
        ],
    };
    let (mut m, _) = Mapper::new(config, None);
    assert_eq!(
        m.send(Event::Button(Button::A, true)).unwrap(),
        vec![SinkOp::Write(10, 1), SinkOp::Synchronize]
    );
    m.set_preset(5);
    assert_eq!(
        m.send(Event::Button(Button::A, true)).unwrap(),
        vec![SinkOp::Write(20, 1), SinkOp::Synchronize]
    );
}

#[test]
fn first_preset_match_wins() {
    // Two sources for the same slot and layer: resolution takes the first.
    let config = config_of(
        vec![
            source(Input::ButtonDiamond, false, 1),
            source(Input::ButtonDiamond, false, 2),
        ],
        vec![
            (1, four_buttons(vec![Binding::Key(10)], vec![], vec![], vec![])),
            (2, four_buttons(vec![Binding::Key(20)], vec![], vec![], vec![])),
        ],
    );
    assert_eq!(config.resolve(0, Input::ButtonDiamond, false), Some(1));
}
