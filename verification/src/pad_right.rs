//! Mode handler for the right trackpad's click, with its own shift layer:
//! a [`PadRight`] holds the group of each layer and consults the one the
//! current shift state selects.

use vstd::prelude::*;

use crate::config::{Binding, Bindings, Group};
use crate::emit::{spec_list_writes, write_list};
use crate::input::Button;
use crate::sink::SinkOp;
use crate::{ConfigError, Error};

verus! {

/// The bindings variant this handler can interpret.
pub open spec fn right_supported(bs: Bindings) -> bool {
    bs is AbsoluteMouse
}

/// The binding list the handler consults: the click of an `AbsoluteMouse`
/// group.
pub open spec fn spec_right_list(bs: Bindings) -> Seq<Binding> {
    match bs {
        Bindings::AbsoluteMouse { click, .. } => click@,
        _ => Seq::empty(),
    }
}

/// What `button` returns: the writes of the click binding list, or a mode
/// mismatch for a foreign bindings variant.
pub open spec fn spec_button(bs: Bindings, press: bool) -> Result<Seq<SinkOp>, Error> {
    if right_supported(bs) {
        Ok(spec_list_writes(spec_right_list(bs), press))
    } else {
        Err(Error::Config(ConfigError::BindingModeMismatch))
    }
}

/// Every code the handler's consulted list can emit is a code of the
/// group's bindings as a whole.
pub proof fn lemma_right_list_codes(bs: Bindings, code: u16)
    requires
        crate::emit::spec_list_codes(spec_right_list(bs)).contains(code),
    ensures
        crate::emit::spec_bindings_codes(bs).contains(code),
{
    let ls = crate::emit::spec_binding_lists(bs);
    match bs {
        Bindings::AbsoluteMouse { .. } => {
            crate::emit::lemma_lists_codes_member(ls, 0, code);
        },
        _ => {},
    }
}

/// Dispatch one right-trackpad click edge against a group's bindings.
///
/// Only the track click reaches this handler. An unbound click yields no
/// write; a bindings variant foreign to this handler yields
/// `BindingModeMismatch`.
pub fn button(bindings: &Bindings, btn: Button, press: bool) -> (r: Result<Vec<SinkOp>, Error>)
    requires
        btn == Button::Track,
    ensures
        r is Err <==> !right_supported(*bindings),
        spec_button(*bindings, press) matches Ok(w) ==> (r matches Ok(v) && v@ == w),
        spec_button(*bindings, press) matches Err(e) ==> r == Err::<Vec<SinkOp>, Error>(e),
{
    match bindings {
        Bindings::AbsoluteMouse { click, .. } => Ok(write_list(click, press)),
        _ => Err(Error::Config(ConfigError::BindingModeMismatch)),
    }
}

/// The right-trackpad component: the group of the plain layer, the group of
/// the shift layer, and which layer is engaged.
#[derive(Debug)]
pub struct PadRight {
    pub normal: Option<Group>,
    pub shift: Option<Group>,
    pub shifted: bool,
}

impl PadRight {
    /// The group the current shift state selects.
    pub open spec fn spec_group(&self) -> Option<Group> {
        if self.shifted {
            self.shift
        } else {
            self.normal
        }
    }

    /// Build the component; the shift layer starts disengaged.
    pub fn load(normal: Option<Group>, shift: Option<Group>) -> (r: Result<PadRight, Error>)
        ensures
            r matches Ok(p) && p.normal == normal && p.shift == shift && !p.shifted,
    {
        Ok(PadRight { normal, shift, shifted: false })
    }

    /// The group of the layer the current shift state selects, if one is
    /// configured.
    pub fn group(&self) -> (r: Option<&Group>)
        ensures
            match r {
                Some(g) => self.spec_group() == Some(*g),
                None => self.spec_group() is None,
            },
    {
        if self.shifted {
            match &self.shift {
                Some(g) => Some(g),
                None => None,
            }
        } else {
            match &self.normal {
                Some(g) => Some(g),
                None => None,
            }
        }
    }

    /// The bindings of the selected group, if one is configured.
    pub fn bindings(&self) -> (r: Option<&Bindings>)
        ensures
            match r {
                Some(b) => self.spec_group() matches Some(g) && g.bindings == *b,
                None => self.spec_group() is None,
            },
    {
        match self.group() {
            Some(g) => Some(&g.bindings),
            None => None,
        }
    }

    /// What `button` returns for the component: nothing when no layer is
    /// configured, else the handler's result on the selected bindings.
    pub open spec fn spec_button(&self, press: bool) -> Result<Seq<SinkOp>, Error> {
        match self.spec_group() {
            None => Ok(Seq::empty()),
            Some(g) => spec_button(g.bindings, press),
        }
    }

    /// Dispatch one track-click edge against the selected layer.
    pub fn button(&self, btn: Button, press: bool) -> (r: Result<Vec<SinkOp>, Error>)
        requires
            btn == Button::Track,
        ensures
            self.spec_button(press) matches Ok(w) ==> (r matches Ok(v) && v@ == w),
            self.spec_button(press) matches Err(e) ==> r == Err::<Vec<SinkOp>, Error>(e),
    {
        match self.bindings() {
            Some(bs) => button(bs, btn, press),
            None => Ok(Vec::new()),
        }
    }
}

} // verus!
