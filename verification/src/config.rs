//! The layered binding configuration: presets map input slots to groups,
//! groups carry a mode and the bindings legal for that mode.

use vstd::prelude::*;

verus! {

/// A logical input slot of the controller.
#[derive(Clone, Copy, Debug, PartialEq, Eq, Structural)]
pub enum Input {
    ButtonDiamond,
    TrackpadLeft,
    TrackpadRight,
    Joystick,
}

/// The semantic behavior family of a group; it constrains which
/// [`Bindings`] variant is legal for the group.
#[derive(Clone, Copy, Debug, PartialEq, Eq, Structural)]
pub enum Mode {
    FourButtons,
    DPad,
    AbsoluteMouse,
    Trigger,
    ScrollWheel,
    MouseJoystick,
    JoystickMove,
    TouchMenu,
}

/// A leaf of the configuration: what one sub-control emits.
#[derive(Clone, Debug)]
pub enum Binding {
    /// A raw virtual-device event code.
    Key(u16),
    /// A chord: a sequence of raw event codes emitted together.
    Chord(Vec<u16>),
    /// A non-emittable higher-level action token; excluded from capability
    /// registration and never written to the sink.
    Action(u32),
}

/// The bindings of a group, tagged by the sub-controls of its mode. An empty
/// list means the sub-control is unbound.
#[derive(Clone, Debug)]
pub enum Bindings {
    FourButtons { a: Vec<Binding>, b: Vec<Binding>, x: Vec<Binding>, y: Vec<Binding> },
    DPad {
        north: Vec<Binding>,
        south: Vec<Binding>,
        east: Vec<Binding>,
        west: Vec<Binding>,
        click: Vec<Binding>,
    },
    AbsoluteMouse { click: Vec<Binding>, double: Vec<Binding> },
    Trigger { click: Vec<Binding> },
    ScrollWheel { cw: Vec<Binding>, ccw: Vec<Binding>, click: Vec<Binding> },
    MouseJoystick { click: Vec<Binding> },
    JoystickMove { click: Vec<Binding> },
    TouchMenu { buttons: Vec<Vec<Binding>> },
}

/// A behavior group: a mode together with the bindings it interprets.
#[derive(Clone, Debug)]
pub struct Group {
    pub mode: Mode,
    pub bindings: Bindings,
}

/// One slot assignment of a preset: which group serves an input slot, on
/// which shift layer.
#[derive(Clone, Copy, Debug, PartialEq, Eq, Structural)]
pub struct Source {
    /// The input slot this source binds.
    pub input: Input,
    /// Whether the source takes part in resolution at all.
    pub active: bool,
    /// `false`: the unshifted layer; `true`: the shift layer.
    pub shift: bool,
    /// The id of the group the slot maps to.
    pub group: u32,
}

/// One preset: a set of slot assignments.
#[derive(Clone, Debug)]
pub struct Preset {
    pub sources: Vec<Source>,
}

/// The root of the binding graph.
#[derive(Clone, Debug)]
pub struct Config {
    /// Presets by id.
    pub presets: Vec<(u32, Preset)>,
    /// Groups by id.
    pub groups: Vec<(u32, Group)>,
}

/// Whether a bindings variant is the one legal for a mode.
pub open spec fn variant_matches_mode(b: Bindings, m: Mode) -> bool {
    match m {
        Mode::FourButtons => b is FourButtons,
        Mode::DPad => b is DPad,
        Mode::AbsoluteMouse => b is AbsoluteMouse,
        Mode::Trigger => b is Trigger,
        Mode::ScrollWheel => b is ScrollWheel,
        Mode::MouseJoystick => b is MouseJoystick,
        Mode::JoystickMove => b is JoystickMove,
        Mode::TouchMenu => b is TouchMenu,
    }
}

/// At most one active source per `(input, shift)` pair: the uniqueness each
/// preset owes.
pub open spec fn sources_unique(sources: Seq<Source>) -> bool {
    forall|i: int, j: int|
        #![trigger sources[i], sources[j]]
        0 <= i < sources.len() && 0 <= j < sources.len() && sources[i].active
            && sources[j].active && sources[i].input == sources[j].input && sources[i].shift
            == sources[j].shift ==> i == j
}

/// The invariant of one preset.
pub open spec fn wf_preset(p: Preset) -> bool {
    sources_unique(p.sources@)
}

/// The invariant of a configuration: every preset holds at most one active
/// source per `(input, shift)` pair, and every group's bindings variant is
/// the one its mode demands.
pub open spec fn wf_config(c: Config) -> bool {
    &&& forall|i: int|
        0 <= i < c.groups@.len() ==> variant_matches_mode(
            (#[trigger] c.groups@[i]).1.bindings,
            c.groups@[i].1.mode,
        )
    &&& forall|i: int| 0 <= i < c.presets@.len() ==> wf_preset((#[trigger] c.presets@[i]).1)
}

/// Whether a source serves `(input, active, shift)`.
pub open spec fn source_matches(s: Source, input: Input, active: bool, shift: bool) -> bool {
    s.input == input && s.active == active && s.shift == shift
}

/// The first source of the list serving `(input, active, shift)`.
pub open spec fn spec_find_source(
    sources: Seq<Source>,
    input: Input,
    active: bool,
    shift: bool,
) -> Option<Source>
    decreases sources.len(),
{
    if sources.len() == 0 {
        None
    } else if source_matches(sources[0], input, active, shift) {
        Some(sources[0])
    } else {
        spec_find_source(sources.drop_first(), input, active, shift)
    }
}

/// The first preset of the list with the given id.
pub open spec fn spec_find_preset(presets: Seq<(u32, Preset)>, id: u32) -> Option<Preset>
    decreases presets.len(),
{
    if presets.len() == 0 {
        None
    } else if presets[0].0 == id {
        Some(presets[0].1)
    } else {
        spec_find_preset(presets.drop_first(), id)
    }
}

/// The first group of the list with the given id.
pub open spec fn spec_find_group(groups: Seq<(u32, Group)>, id: u32) -> Option<Group>
    decreases groups.len(),
{
    if groups.len() == 0 {
        None
    } else if groups[0].0 == id {
        Some(groups[0].1)
    } else {
        spec_find_group(groups.drop_first(), id)
    }
}

/// The group id resolution of spec level: scan the preset's sources for the
/// unique match on `(input, active=true, shift)`.
pub open spec fn spec_resolve(c: Config, preset: u32, input: Input, shift: bool) -> Option<u32> {
    match spec_find_preset(c.presets@, preset) {
        None => None,
        Some(p) => match spec_find_source(p.sources@, input, true, shift) {
            None => None,
            Some(s) => Some(s.group),
        },
    }
}

proof fn lemma_find_source_unique(sources: Seq<Source>, input: Input, shift: bool, j: int)
    requires
        sources_unique(sources),
        0 <= j < sources.len(),
        source_matches(sources[j], input, true, shift),
    ensures
        spec_find_source(sources, input, true, shift) == Some(sources[j]),
    decreases sources.len(),
{
    if source_matches(sources[0], input, true, shift) {
        assert(j == 0);
    } else {
        assert(j != 0);
        let rest = sources.drop_first();
        assert forall|a: int, b: int|
            #![trigger rest[a], rest[b]]
            0 <= a < rest.len() && 0 <= b < rest.len() && rest[a].active && rest[b].active
                && rest[a].input == rest[b].input && rest[a].shift == rest[b].shift implies a
            == b by {
            assert(rest[a] == sources[a + 1]);
            assert(rest[b] == sources[b + 1]);
        }
        assert(rest[j - 1] == sources[j]);
        lemma_find_source_unique(rest, input, shift, j - 1);
    }
}

/// Under the preset invariant, resolution does not depend on the order of
/// the sources: any active source serving the slot on the layer is the one
/// resolution returns.
pub proof fn lemma_resolve_unique(c: Config, preset: u32, input: Input, shift: bool, j: int)
    requires
        spec_find_preset(c.presets@, preset) matches Some(p) && wf_preset(p) && 0 <= j
            < p.sources@.len() && source_matches(p.sources@[j], input, true, shift),
    ensures
        spec_find_preset(c.presets@, preset) matches Some(p) && spec_resolve(
            c,
            preset,
            input,
            shift,
        ) == Some(p.sources@[j].group),
{
    match spec_find_preset(c.presets@, preset) {
        Some(p) => {
            lemma_find_source_unique(p.sources@, input, shift, j);
        },
        None => {},
    }
}

/// A group that lookup finds is a member of the list.
pub proof fn lemma_find_group_member(gs: Seq<(u32, Group)>, id: u32)
    ensures
        spec_find_group(gs, id) matches Some(g) ==> exists|i: int|
            0 <= i < gs.len() && gs[i].1 == g,
    decreases gs.len(),
{
    if gs.len() == 0 {
    } else if gs[0].0 == id {
        let g = gs[0].1;
        assert(0 <= 0 < gs.len() && gs[0].1 == g);
    } else {
        lemma_find_group_member(gs.drop_first(), id);
        match spec_find_group(gs, id) {
            Some(g) => {
                let i = choose|i: int|
                    0 <= i < gs.drop_first().len() && gs.drop_first()[i].1 == g;
                assert(gs[i + 1].1 == g);
            },
            None => {},
        }
    }
}

/// Lookup in a well-formed configuration yields only groups whose bindings
/// variant matches their mode.
pub proof fn lemma_find_group_wf(c: Config, id: u32)
    requires
        wf_config(c),
    ensures
        spec_find_group(c.groups@, id) matches Some(g) ==> variant_matches_mode(
            g.bindings,
            g.mode,
        ),
{
    lemma_find_group_member(c.groups@, id);
    match spec_find_group(c.groups@, id) {
        Some(g) => {
            let i = choose|i: int| 0 <= i < c.groups@.len() && c.groups@[i].1 == g;
            assert(variant_matches_mode(c.groups@[i].1.bindings, c.groups@[i].1.mode));
        },
        None => {},
    }
}

impl Config {
    /// The preset with the given id, if any.
    pub fn preset_of(&self, id: u32) -> (r: Option<&Preset>)
        ensures
            match r {
                Some(p) => spec_find_preset(self.presets@, id) == Some(*p),
                None => spec_find_preset(self.presets@, id) is None,
            },
    {
        let mut i: usize = 0;
        proof {
            assert(self.presets@.skip(0) =~= self.presets@);
        }
        while i < self.presets.len()
            invariant
                i <= self.presets@.len(),
                spec_find_preset(self.presets@, id) == spec_find_preset(
                    self.presets@.skip(i as int),
                    id,
                ),
            decreases self.presets@.len() - i,
        {
            proof {
                assert(self.presets@.skip(i as int)[0] == self.presets@[i as int]);
                assert(self.presets@.skip(i as int).drop_first() =~= self.presets@.skip(
                    i as int + 1,
                ));
            }
            if self.presets[i].0 == id {
                return Some(&self.presets[i].1);
            }
            i = i + 1;
        }
        None
    }

    /// The group with the given id, if any.
    pub fn group_of(&self, id: u32) -> (r: Option<&Group>)
        ensures
            match r {
                Some(g) => spec_find_group(self.groups@, id) == Some(*g),
                None => spec_find_group(self.groups@, id) is None,
            },
    {
        let mut i: usize = 0;
        proof {
            assert(self.groups@.skip(0) =~= self.groups@);
        }
        while i < self.groups.len()
            invariant
                i <= self.groups@.len(),
                spec_find_group(self.groups@, id) == spec_find_group(
                    self.groups@.skip(i as int),
                    id,
                ),
            decreases self.groups@.len() - i,
        {
            proof {
                assert(self.groups@.skip(i as int)[0] == self.groups@[i as int]);
                assert(self.groups@.skip(i as int).drop_first() =~= self.groups@.skip(
                    i as int + 1,
                ));
            }
            if self.groups[i].0 == id {
                return Some(&self.groups[i].1);
            }
            i = i + 1;
        }
        None
    }

    /// The bindings of the group with the given id, if the group exists.
    ///
    /// Absence is not an error: the caller treats `None` as "no mapping, do
    /// nothing".
    pub fn bindings_of(&self, id: u32) -> (r: Option<&Bindings>)
        ensures
            match r {
                Some(b) => spec_find_group(self.groups@, id) matches Some(g) && g.bindings == *b,
                None => spec_find_group(self.groups@, id) is None,
            },
    {
        match self.group_of(id) {
            Some(g) => Some(&g.bindings),
            None => None,
        }
    }

    /// The id of the group serving `(input, shift)` in the given preset:
    /// the first source of the preset matching `(input, active=true, shift)`.
    ///
    /// `None` means the slot is unconfigured on that layer.
    pub fn resolve(&self, preset: u32, input: Input, shift: bool) -> (r: Option<u32>)
        ensures
            r == spec_resolve(*self, preset, input, shift),
    {
        let p = match self.preset_of(preset) {
            Some(p) => p,
            None => {
                return None;
            },
        };
        let mut i: usize = 0;
        proof {
            assert(p.sources@.skip(0) =~= p.sources@);
        }
        while i < p.sources.len()
            invariant
                i <= p.sources@.len(),
                spec_find_preset(self.presets@, preset) == Some(*p),
                spec_find_source(p.sources@, input, true, shift) == spec_find_source(
                    p.sources@.skip(i as int),
                    input,
                    true,
                    shift,
                ),
            decreases p.sources@.len() - i,
        {
            proof {
                assert(p.sources@.skip(i as int)[0] == p.sources@[i as int]);
                assert(p.sources@.skip(i as int).drop_first() =~= p.sources@.skip(i as int + 1));
            }
            let s = &p.sources[i];
            if s.input == input && s.active && s.shift == shift {
                return Some(s.group);
            }
            i = i + 1;
        }
        None
    }
}

} // verus!
