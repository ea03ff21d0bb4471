//! Traversal of the binding graph: which raw event codes a configuration can
//! emit, the capability declarations owed to the sink at setup, and the
//! writes owed for one pressed or released sub-control.

use vstd::prelude::*;

use crate::config::{Binding, Bindings, Config, Mode};
use crate::sink::{Axis, SinkOp};
use crate::util::{
    lemma_add_empty, lemma_add_push, lemma_add_singleton, lemma_add_two, lemma_take_all,
    lemma_take_step, lemma_take_succ,
};

verus! {

/// The raw event codes of one binding; an action token has none.
pub open spec fn spec_binding_codes(b: Binding) -> Seq<u16> {
    match b {
        Binding::Key(c) => seq![c],
        Binding::Chord(cs) => cs@,
        Binding::Action(_) => Seq::empty(),
    }
}

/// The raw event codes of a binding list, in declared order.
pub open spec fn spec_list_codes(l: Seq<Binding>) -> Seq<u16>
    decreases l.len(),
{
    if l.len() == 0 {
        Seq::empty()
    } else {
        spec_list_codes(l.drop_last()) + spec_binding_codes(l.last())
    }
}

/// The view of a list of binding lists.
pub open spec fn spec_lists_view(ls: Seq<Vec<Binding>>) -> Seq<Seq<Binding>> {
    ls.map_values(|l: Vec<Binding>| l@)
}

/// The binding lists of a `Bindings` value, each sub-control in its
/// declared order.
pub open spec fn spec_binding_lists(bs: Bindings) -> Seq<Seq<Binding>> {
    match bs {
        Bindings::FourButtons { a, b, x, y } => seq![a@, b@, x@, y@],
        Bindings::DPad { north, south, east, west, click } => seq![
            north@,
            south@,
            east@,
            west@,
            click@,
        ],
        Bindings::AbsoluteMouse { click, double } => seq![click@, double@],
        Bindings::Trigger { click } => seq![click@],
        Bindings::ScrollWheel { cw, ccw, click } => seq![cw@, ccw@, click@],
        Bindings::MouseJoystick { click } => seq![click@],
        Bindings::JoystickMove { click } => seq![click@],
        Bindings::TouchMenu { buttons } => spec_lists_view(buttons@),
    }
}

/// The raw event codes of a list of binding lists.
pub open spec fn spec_lists_codes(ls: Seq<Seq<Binding>>) -> Seq<u16>
    decreases ls.len(),
{
    if ls.len() == 0 {
        Seq::empty()
    } else {
        spec_lists_codes(ls.drop_last()) + spec_list_codes(ls.last())
    }
}

/// Every raw event code a `Bindings` value can emit, in declared order;
/// action tokens contribute nothing.
pub open spec fn spec_bindings_codes(bs: Bindings) -> Seq<u16> {
    spec_lists_codes(spec_binding_lists(bs))
}

/// Every raw event code reachable from the configuration's groups.
pub open spec fn spec_groups_codes(gs: Seq<(u32, crate::config::Group)>) -> Seq<u16>
    decreases gs.len(),
{
    if gs.len() == 0 {
        Seq::empty()
    } else {
        spec_groups_codes(gs.drop_last()) + spec_bindings_codes(gs.last().1.bindings)
    }
}

/// Every raw event code the configuration can emit.
pub open spec fn spec_raw_codes(c: Config) -> Seq<u16> {
    spec_groups_codes(c.groups@)
}

/// The sink value of a press or release.
pub open spec fn press_value(press: bool) -> i32 {
    if press {
        1
    } else {
        0
    }
}

/// The writes owed for a sequence of raw codes at one value.
pub open spec fn spec_code_writes(codes: Seq<u16>, v: i32) -> Seq<SinkOp> {
    codes.map_values(|c: u16| SinkOp::Write(c, v))
}

/// The writes owed for one binding on a press or release.
pub open spec fn spec_binding_writes(b: Binding, press: bool) -> Seq<SinkOp> {
    spec_code_writes(spec_binding_codes(b), press_value(press))
}

/// The writes owed for a binding list on a press or release, in declared
/// order.
pub open spec fn spec_list_writes(l: Seq<Binding>, press: bool) -> Seq<SinkOp>
    decreases l.len(),
{
    if l.len() == 0 {
        Seq::empty()
    } else {
        spec_list_writes(l.drop_last(), press) + spec_binding_writes(l.last(), press)
    }
}

/// The axis capabilities owed for one group mode.
pub open spec fn spec_mode_decls(m: Mode) -> Seq<SinkOp> {
    match m {
        Mode::JoystickMove | Mode::MouseJoystick => seq![
            SinkOp::DeclareAxis(Axis::X, -32768i32, 32767i32, 16i32, 128i32),
            SinkOp::DeclareAxis(Axis::Y, -32768i32, 32767i32, 16i32, 128i32),
        ],
        Mode::AbsoluteMouse => seq![
            SinkOp::DeclareRelative(Axis::X),
            SinkOp::DeclareRelative(Axis::Y),
        ],
        _ => Seq::empty(),
    }
}

/// The axis capabilities owed for the configuration's groups, in order.
pub open spec fn spec_groups_mode_decls(gs: Seq<(u32, crate::config::Group)>) -> Seq<SinkOp>
    decreases gs.len(),
{
    if gs.len() == 0 {
        Seq::empty()
    } else {
        spec_groups_mode_decls(gs.drop_last()) + spec_mode_decls(gs.last().1.mode)
    }
}

/// The button capability declarations for a sequence of raw codes.
pub open spec fn spec_button_decls(codes: Seq<u16>) -> Seq<SinkOp> {
    codes.map_values(|c: u16| SinkOp::DeclareButton(c))
}

/// The full capability set owed to the sink for a configuration: the axis
/// declarations of every group's mode, then one button declaration per
/// raw-emittable code.
pub open spec fn spec_caps(c: Config) -> Seq<SinkOp> {
    spec_groups_mode_decls(c.groups@) + spec_button_decls(spec_raw_codes(c))
}

/// Append the raw codes of one binding list to `out`.
fn append_codes(out: &mut Vec<u16>, l: &Vec<Binding>)
    ensures
        final(out)@ == old(out)@ + spec_list_codes(l@),
{
    let mut i: usize = 0;
    proof {
        assert(l@.take(0) =~= Seq::<Binding>::empty());
        assert(spec_list_codes(Seq::<Binding>::empty()) == Seq::<u16>::empty());
        lemma_add_empty(old(out)@);
    }
    while i < l.len()
        invariant
            i <= l@.len(),
            out@ == old(out)@ + spec_list_codes(l@.take(i as int)),
        decreases l@.len() - i,
    {
        proof {
            lemma_take_step(l@, i as int);
        }
        let ghost pre = out@;
        let ghost done = spec_list_codes(l@.take(i as int));
        match &l[i] {
            Binding::Key(c) => {
                out.push(*c);
                proof {
                    assert(spec_binding_codes(l@[i as int]) =~= seq![*c]);
                    lemma_add_push(old(out)@, done, *c);
                    lemma_add_singleton(done, *c);
                }
            },
            Binding::Chord(cs) => {
                let mut j: usize = 0;
                proof {
                    assert(cs@.take(0) =~= Seq::<u16>::empty());
                    lemma_add_empty(pre);
                }
                while j < cs.len()
                    invariant
                        j <= cs@.len(),
                        out@ == pre + cs@.take(j as int),
                    decreases cs@.len() - j,
                {
                    out.push(cs[j]);
                    proof {
                        lemma_take_succ(cs@, j as int);
                        lemma_add_push(pre, cs@.take(j as int), cs@[j as int]);
                    }
                    j = j + 1;
                }
                proof {
                    lemma_take_all(cs@);
                    assert(spec_binding_codes(l@[i as int]) == cs@);
                    crate::util::lemma_add_assoc(old(out)@, done, cs@);
                }
            },
            Binding::Action(_) => {
                proof {
                    lemma_add_empty(done);
                }
            },
        }
        i = i + 1;
    }
    proof {
        lemma_take_all(l@);
    }
}

/// Every raw code a `Bindings` value can emit, in declared order.
pub fn bindings_codes(bs: &Bindings) -> (r: Vec<u16>)
    ensures
        r@ == spec_bindings_codes(*bs),
{
    let mut out: Vec<u16> = Vec::new();
    match bs {
        Bindings::FourButtons { a, b, x, y } => {
            append_codes(&mut out, a);
            append_codes(&mut out, b);
            append_codes(&mut out, x);
            append_codes(&mut out, y);
            proof {
                lemma_lists_codes4(a@, b@, x@, y@);
            }
        },
        Bindings::DPad { north, south, east, west, click } => {
            append_codes(&mut out, north);
            append_codes(&mut out, south);
            append_codes(&mut out, east);
            append_codes(&mut out, west);
            append_codes(&mut out, click);
            proof {
                lemma_lists_codes5(north@, south@, east@, west@, click@);
            }
        },
        Bindings::AbsoluteMouse { click, double } => {
            append_codes(&mut out, click);
            append_codes(&mut out, double);
            proof {
                lemma_lists_codes2(click@, double@);
            }
        },
        Bindings::Trigger { click } => {
            append_codes(&mut out, click);
            proof {
                lemma_lists_codes1(click@);
            }
        },
        Bindings::ScrollWheel { cw, ccw, click } => {
            append_codes(&mut out, cw);
            append_codes(&mut out, ccw);
            append_codes(&mut out, click);
            proof {
                lemma_lists_codes3(cw@, ccw@, click@);
            }
        },
        Bindings::MouseJoystick { click } => {
            append_codes(&mut out, click);
            proof {
                lemma_lists_codes1(click@);
            }
        },
        Bindings::JoystickMove { click } => {
            append_codes(&mut out, click);
            proof {
                lemma_lists_codes1(click@);
            }
        },
        Bindings::TouchMenu { buttons } => {
            let mut i: usize = 0;
            proof {
                assert(spec_lists_view(buttons@).take(0) =~= Seq::<Seq<Binding>>::empty());
                assert(spec_lists_codes(Seq::<Seq<Binding>>::empty()) == Seq::<u16>::empty());
            }
            while i < buttons.len()
                invariant
                    i <= buttons@.len(),
                    out@ == spec_lists_codes(spec_lists_view(buttons@).take(i as int)),
                decreases buttons@.len() - i,
            {
                append_codes(&mut out, &buttons[i]);
                proof {
                    let ml = spec_lists_view(buttons@);
                    assert(ml[i as int] == buttons@[i as int]@);
                    assert(ml.take(i as int + 1).drop_last() =~= ml.take(i as int));
                    assert(ml.take(i as int + 1).last() == buttons@[i as int]@);
                }
                i = i + 1;
            }
            proof {
                lemma_take_all(spec_lists_view(buttons@));
                assert(spec_lists_view(buttons@).len() == buttons@.len());
            }
        },
    }
    out
}

proof fn lemma_lists_codes1(l0: Seq<Binding>)
    ensures
        spec_lists_codes(seq![l0]) == Seq::<u16>::empty() + spec_list_codes(l0),
{
    assert(seq![l0].drop_last() =~= Seq::<Seq<Binding>>::empty());
    assert(spec_lists_codes(Seq::<Seq<Binding>>::empty()) == Seq::<u16>::empty());
    assert(seq![l0].last() == l0);
}

proof fn lemma_lists_codes2(l0: Seq<Binding>, l1: Seq<Binding>)
    ensures
        spec_lists_codes(seq![l0, l1]) == (Seq::<u16>::empty() + spec_list_codes(l0))
            + spec_list_codes(l1),
{
    assert(seq![l0, l1].drop_last() =~= seq![l0]);
    lemma_lists_codes1(l0);
}

proof fn lemma_lists_codes3(l0: Seq<Binding>, l1: Seq<Binding>, l2: Seq<Binding>)
    ensures
        spec_lists_codes(seq![l0, l1, l2]) == ((Seq::<u16>::empty() + spec_list_codes(l0))
            + spec_list_codes(l1)) + spec_list_codes(l2),
{
    assert(seq![l0, l1, l2].drop_last() =~= seq![l0, l1]);
    lemma_lists_codes2(l0, l1);
}

proof fn lemma_lists_codes4(l0: Seq<Binding>, l1: Seq<Binding>, l2: Seq<Binding>, l3: Seq<Binding>)
    ensures
        spec_lists_codes(seq![l0, l1, l2, l3]) == (((Seq::<u16>::empty() + spec_list_codes(l0))
            + spec_list_codes(l1)) + spec_list_codes(l2)) + spec_list_codes(l3),
{
    assert(seq![l0, l1, l2, l3].drop_last() =~= seq![l0, l1, l2]);
    lemma_lists_codes3(l0, l1, l2);
}

proof fn lemma_lists_codes5(
    l0: Seq<Binding>,
    l1: Seq<Binding>,
    l2: Seq<Binding>,
    l3: Seq<Binding>,
    l4: Seq<Binding>,
)
    ensures
        spec_lists_codes(seq![l0, l1, l2, l3, l4]) == ((((Seq::<u16>::empty() + spec_list_codes(
            l0,
        )) + spec_list_codes(l1)) + spec_list_codes(l2)) + spec_list_codes(l3)) + spec_list_codes(
            l4,
        ),
{
    assert(seq![l0, l1, l2, l3, l4].drop_last() =~= seq![l0, l1, l2, l3]);
    lemma_lists_codes4(l0, l1, l2, l3);
}

/// The writes owed for one binding list on a press or release: one
/// `SinkOp::Write` per raw code, in declared order; action tokens emit
/// nothing.
pub fn write_list(l: &Vec<Binding>, press: bool) -> (r: Vec<SinkOp>)
    ensures
        r@ == spec_list_writes(l@, press),
{
    let v: i32 = if press {
        1
    } else {
        0
    };
    let mut out: Vec<SinkOp> = Vec::new();
    let mut i: usize = 0;
    proof {
        assert(l@.take(0) =~= Seq::<Binding>::empty());
        assert(spec_list_writes(Seq::<Binding>::empty(), press) == Seq::<SinkOp>::empty());
    }
    while i < l.len()
        invariant
            i <= l@.len(),
            v == press_value(press),
            out@ == spec_list_writes(l@.take(i as int), press),
        decreases l@.len() - i,
    {
        proof {
            lemma_take_step(l@, i as int);
        }
        let ghost done = spec_list_writes(l@.take(i as int), press);
        match &l[i] {
            Binding::Key(c) => {
                out.push(SinkOp::Write(*c, v));
                proof {
                    let code = l@[i as int]->Key_0;
                    assert(spec_binding_writes(l@[i as int], press) =~= seq![
                        SinkOp::Write(code, v),
                    ]);
                    lemma_add_singleton(done, SinkOp::Write(code, v));
                }
            },
            Binding::Chord(cs) => {
                let ghost pre = out@;
                let mut j: usize = 0;
                proof {
                    assert(spec_code_writes(cs@.take(0), v) =~= Seq::<SinkOp>::empty());
                    lemma_add_empty(pre);
                }
                while j < cs.len()
                    invariant
                        j <= cs@.len(),
                        v == press_value(press),
                        out@ == pre + spec_code_writes(cs@.take(j as int), v),
                    decreases cs@.len() - j,
                {
                    out.push(SinkOp::Write(cs[j], v));
                    proof {
                        assert(spec_code_writes(cs@.take(j as int + 1), v) =~= spec_code_writes(
                            cs@.take(j as int),
                            v,
                        ).push(SinkOp::Write(cs@[j as int], v)));
                        lemma_add_push(
                            pre,
                            spec_code_writes(cs@.take(j as int), v),
                            SinkOp::Write(cs@[j as int], v),
                        );
                    }
                    j = j + 1;
                }
                proof {
                    lemma_take_all(cs@);
                    assert(spec_binding_codes(l@[i as int]) == cs@);
                    assert(spec_binding_writes(l@[i as int], press) == spec_code_writes(cs@, v));
                }
            },
            Binding::Action(_) => {
                proof {
                    assert(spec_binding_writes(l@[i as int], press) =~= Seq::<SinkOp>::empty());
                    lemma_add_empty(done);
                }
            },
        }
        i = i + 1;
        proof {
            assert(out@ == spec_list_writes(l@.take(i as int), press));
        }
    }
    proof {
        lemma_take_all(l@);
    }
    out
}

/// The capability declarations owed to the sink at setup, computed once at
/// engine construction: the axis declarations of every group's mode, then
/// one button declaration per raw-emittable code of the configuration.
pub fn capabilities(c: &Config) -> (r: Vec<SinkOp>)
    ensures
        r@ == spec_caps(*c),
{
    let mut ops: Vec<SinkOp> = Vec::new();
    let mut i: usize = 0;
    proof {
        assert(c.groups@.take(0) =~= Seq::<(u32, crate::config::Group)>::empty());
        assert(spec_groups_mode_decls(Seq::<(u32, crate::config::Group)>::empty())
            == Seq::<SinkOp>::empty());
    }
    while i < c.groups.len()
        invariant
            i <= c.groups@.len(),
            ops@ == spec_groups_mode_decls(c.groups@.take(i as int)),
        decreases c.groups@.len() - i,
    {
        proof {
            lemma_take_step(c.groups@, i as int);
        }
        let ghost done = spec_groups_mode_decls(c.groups@.take(i as int));
        match c.groups[i].1.mode {
            Mode::JoystickMove | Mode::MouseJoystick => {
                ops.push(SinkOp::DeclareAxis(Axis::X, -32768i32, 32767i32, 16i32, 128i32));
                ops.push(SinkOp::DeclareAxis(Axis::Y, -32768i32, 32767i32, 16i32, 128i32));
                proof {
                    lemma_add_two(
                        done,
                        SinkOp::DeclareAxis(Axis::X, -32768i32, 32767i32, 16i32, 128i32),
                        SinkOp::DeclareAxis(Axis::Y, -32768i32, 32767i32, 16i32, 128i32),
                    );
                }
            },
            Mode::AbsoluteMouse => {
                ops.push(SinkOp::DeclareRelative(Axis::X));
                ops.push(SinkOp::DeclareRelative(Axis::Y));
                proof {
                    lemma_add_two(
                        done,
                        SinkOp::DeclareRelative(Axis::X),
                        SinkOp::DeclareRelative(Axis::Y),
                    );
                }
            },
            _ => {
                proof {
                    lemma_add_empty(done);
                }
            },
        }
        i = i + 1;
    }
    proof {
        lemma_take_all(c.groups@);
    }
    let mut codes: Vec<u16> = Vec::new();
    let mut j: usize = 0;
    proof {
        assert(spec_groups_codes(Seq::<(u32, crate::config::Group)>::empty())
            == Seq::<u16>::empty());
        assert(c.groups@.take(0) =~= Seq::<(u32, crate::config::Group)>::empty());
    }
    while j < c.groups.len()
        invariant
            j <= c.groups@.len(),
            codes@ == spec_groups_codes(c.groups@.take(j as int)),
        decreases c.groups@.len() - j,
    {
        proof {
            lemma_take_step(c.groups@, j as int);
        }
        let ghost done = spec_groups_codes(c.groups@.take(j as int));
        let mut bc = bindings_codes(&c.groups[j].1.bindings);
        codes.append(&mut bc);
        j = j + 1;
    }
    proof {
        lemma_take_all(c.groups@);
    }
    let mut k: usize = 0;
    proof {
        assert(spec_button_decls(codes@.take(0)) =~= Seq::<SinkOp>::empty());
        lemma_add_empty(spec_groups_mode_decls(c.groups@));
    }
    while k < codes.len()
        invariant
            k <= codes@.len(),
            codes@ == spec_raw_codes(*c),
            ops@ == spec_groups_mode_decls(c.groups@) + spec_button_decls(codes@.take(k as int)),
        decreases codes@.len() - k,
    {
        ops.push(SinkOp::DeclareButton(codes[k]));
        proof {
            assert(spec_button_decls(codes@.take(k as int + 1)) =~= spec_button_decls(
                codes@.take(k as int),
            ).push(SinkOp::DeclareButton(codes@[k as int])));
            lemma_add_push(
                spec_groups_mode_decls(c.groups@),
                spec_button_decls(codes@.take(k as int)),
                SinkOp::DeclareButton(codes@[k as int]),
            );
        }
        k = k + 1;
    }
    proof {
        lemma_take_all(codes@);
    }
    ops
}

/// The writes of a binding list are exactly its raw codes, each mapped to
/// one `SinkOp::Write` at the press value.
pub proof fn lemma_list_writes_as_code_writes(l: Seq<Binding>, press: bool)
    ensures
        spec_list_writes(l, press) == spec_code_writes(spec_list_codes(l), press_value(press)),
    decreases l.len(),
{
    let v = press_value(press);
    if l.len() == 0 {
        assert(spec_code_writes(Seq::<u16>::empty(), v) =~= Seq::<SinkOp>::empty());
    } else {
        lemma_list_writes_as_code_writes(l.drop_last(), press);
        assert(spec_code_writes(spec_list_codes(l.drop_last()) + spec_binding_codes(l.last()), v)
            =~= spec_code_writes(spec_list_codes(l.drop_last()), v) + spec_code_writes(
            spec_binding_codes(l.last()),
            v,
        ));
    }
}

/// A code of any member list is a code of the whole list of lists.
pub proof fn lemma_lists_codes_member(ls: Seq<Seq<Binding>>, idx: int, code: u16)
    requires
        0 <= idx < ls.len(),
        spec_list_codes(ls[idx]).contains(code),
    ensures
        spec_lists_codes(ls).contains(code),
    decreases ls.len(),
{
    if idx == ls.len() - 1 {
        crate::util::lemma_contains_right(
            spec_lists_codes(ls.drop_last()),
            spec_list_codes(ls.last()),
            code,
        );
    } else {
        assert(ls.drop_last()[idx] == ls[idx]);
        lemma_lists_codes_member(ls.drop_last(), idx, code);
        crate::util::lemma_contains_left(
            spec_lists_codes(ls.drop_last()),
            spec_list_codes(ls.last()),
            code,
        );
    }
}

/// A code of any group's bindings is a raw code of the configuration's
/// group list.
pub proof fn lemma_groups_codes_member(gs: Seq<(u32, crate::config::Group)>, idx: int, code: u16)
    requires
        0 <= idx < gs.len(),
        spec_bindings_codes(gs[idx].1.bindings).contains(code),
    ensures
        spec_groups_codes(gs).contains(code),
    decreases gs.len(),
{
    if idx == gs.len() - 1 {
        crate::util::lemma_contains_right(
            spec_groups_codes(gs.drop_last()),
            spec_bindings_codes(gs.last().1.bindings),
            code,
        );
    } else {
        assert(gs.drop_last()[idx] == gs[idx]);
        lemma_groups_codes_member(gs.drop_last(), idx, code);
        crate::util::lemma_contains_left(
            spec_groups_codes(gs.drop_last()),
            spec_bindings_codes(gs.last().1.bindings),
            code,
        );
    }
}

/// No axis declaration is a button declaration: helper for the capability
/// completeness law.
proof fn lemma_mode_decls_no_button(gs: Seq<(u32, crate::config::Group)>)
    ensures
        forall|i: int|
            0 <= i < spec_groups_mode_decls(gs).len() ==> !(spec_groups_mode_decls(gs)[i]
                is DeclareButton),
    decreases gs.len(),
{
    if gs.len() > 0 {
        lemma_mode_decls_no_button(gs.drop_last());
        let pre = spec_groups_mode_decls(gs.drop_last());
        let md = spec_mode_decls(gs.last().1.mode);
        assert forall|i: int|
            0 <= i < spec_groups_mode_decls(gs).len() implies !(spec_groups_mode_decls(gs)[i]
            is DeclareButton) by {
            if i < pre.len() {
                assert(spec_groups_mode_decls(gs)[i] == pre[i]);
            } else {
                assert(spec_groups_mode_decls(gs)[i] == md[i - pre.len()]);
            }
        }
    }
}

/// Capability completeness: the computed capability set holds a button
/// declaration for a code if and only if some binding reachable from the
/// configuration can emit that code. Action tokens contribute no code, so a
/// configuration whose bindings are all action tokens declares no button.
pub proof fn lemma_caps_complete(c: Config, code: u16)
    ensures
        spec_caps(c).contains(SinkOp::DeclareButton(code)) <==> spec_raw_codes(c).contains(code),
{
    let modes = spec_groups_mode_decls(c.groups@);
    let btns = spec_button_decls(spec_raw_codes(c));
    if spec_raw_codes(c).contains(code) {
        let j = choose|j: int|
            0 <= j < spec_raw_codes(c).len() && spec_raw_codes(c)[j] == code;
        assert(spec_caps(c)[modes.len() + j] == SinkOp::DeclareButton(code));
        assert(spec_caps(c).contains(SinkOp::DeclareButton(code)));
    }
    if spec_caps(c).contains(SinkOp::DeclareButton(code)) {
        let i = choose|i: int|
            0 <= i < spec_caps(c).len() && spec_caps(c)[i] == SinkOp::DeclareButton(code);
        lemma_mode_decls_no_button(c.groups@);
        if i < modes.len() {
            assert(spec_caps(c)[i] == modes[i]);
            assert(false);
        } else {
            assert(spec_caps(c)[i] == btns[i - modes.len()]);
            assert(spec_raw_codes(c)[i - modes.len()] == code);
            assert(spec_raw_codes(c).contains(code));
        }
    }
}

} // verus!
