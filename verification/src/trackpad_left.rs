//! Mode handler for the left trackpad's boundary regions and click.

use vstd::prelude::*;

use crate::config::{Binding, Bindings};
use crate::emit::{spec_list_writes, write_list};
use crate::input::Button;
use crate::sink::SinkOp;
use crate::{ConfigError, Error};

verus! {

/// The bindings variant this handler can interpret.
pub open spec fn left_supported(bs: Bindings) -> bool {
    bs is DPad
}

/// The binding list the handler consults for a button: the matching
/// direction or center click of a `DPad` group, nothing for a button of
/// another control family.
pub open spec fn spec_left_list(bs: Bindings, btn: Button) -> Seq<Binding> {
    match bs {
        Bindings::DPad { north, south, east, west, click } => match btn {
            Button::Up => north@,
            Button::Down => south@,
            Button::Left => west@,
            Button::Right => east@,
            Button::Pad => click@,
            _ => Seq::empty(),
        },
        _ => Seq::empty(),
    }
}

/// What `button` returns: the writes of the consulted binding list, or a
/// mode mismatch for a foreign bindings variant.
pub open spec fn spec_button(bs: Bindings, btn: Button, press: bool) -> Result<Seq<SinkOp>, Error> {
    if left_supported(bs) {
        Ok(spec_list_writes(spec_left_list(bs, btn), press))
    } else {
        Err(Error::Config(ConfigError::BindingModeMismatch))
    }
}

/// Every code the handler's consulted list can emit is a code of the
/// group's bindings as a whole.
pub proof fn lemma_left_list_codes(bs: Bindings, btn: Button, code: u16)
    requires
        crate::emit::spec_list_codes(spec_left_list(bs, btn)).contains(code),
    ensures
        crate::emit::spec_bindings_codes(bs).contains(code),
{
    let ls = crate::emit::spec_binding_lists(bs);
    match bs {
        Bindings::DPad { .. } => match btn {
            Button::Up => crate::emit::lemma_lists_codes_member(ls, 0, code),
            Button::Down => crate::emit::lemma_lists_codes_member(ls, 1, code),
            Button::Left => crate::emit::lemma_lists_codes_member(ls, 3, code),
            Button::Right => crate::emit::lemma_lists_codes_member(ls, 2, code),
            Button::Pad => crate::emit::lemma_lists_codes_member(ls, 4, code),
            _ => {},
        },
        _ => {},
    }
}

/// Dispatch one left-trackpad button edge against a group's bindings.
///
/// A sub-control with no binding yields no write; a bindings variant foreign
/// to this handler yields `BindingModeMismatch`, never a silent no-op.
pub fn button(bindings: &Bindings, btn: Button, press: bool) -> (r: Result<Vec<SinkOp>, Error>)
    ensures
        r is Err <==> !left_supported(*bindings),
        spec_button(*bindings, btn, press) matches Ok(w) ==> (r matches Ok(v) && v@ == w),
        spec_button(*bindings, btn, press) matches Err(e) ==> r == Err::<Vec<SinkOp>, Error>(e),
{
    proof {
        assert(spec_list_writes(Seq::<Binding>::empty(), press) == Seq::<SinkOp>::empty());
    }
    match bindings {
        Bindings::DPad { north, south, east, west, click } => match btn {
            Button::Up => Ok(write_list(north, press)),
            Button::Down => Ok(write_list(south, press)),
            Button::Left => Ok(write_list(west, press)),
            Button::Right => Ok(write_list(east, press)),
            Button::Pad => Ok(write_list(click, press)),
            _ => Ok(Vec::new()),
        },
        _ => Err(Error::Config(ConfigError::BindingModeMismatch)),
    }
}

} // verus!
