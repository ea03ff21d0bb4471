//! Mode handler for the four-button diamond.

use vstd::prelude::*;

use crate::config::{Binding, Bindings};
use crate::emit::{spec_list_writes, write_list};
use crate::input::Button;
use crate::sink::SinkOp;
use crate::{ConfigError, Error};

verus! {

/// The bindings variants this handler can interpret.
pub open spec fn diamond_supported(bs: Bindings) -> bool {
    bs is FourButtons || bs is DPad
}

/// The binding list the handler consults for a button: the button's own
/// sub-control on a `FourButtons` group, the matching direction on a `DPad`
/// group, nothing for a button of another control family.
pub open spec fn spec_diamond_list(bs: Bindings, btn: Button) -> Seq<Binding> {
    match bs {
        Bindings::FourButtons { a, b, x, y } => match btn {
            Button::A => a@,
            Button::B => b@,
            Button::X => x@,
            Button::Y => y@,
            _ => Seq::empty(),
        },
        Bindings::DPad { north, south, east, west, .. } => match btn {
            Button::A => south@,
            Button::B => east@,
            Button::X => west@,
            Button::Y => north@,
            _ => Seq::empty(),
        },
        _ => Seq::empty(),
    }
}

/// What `button` returns: the writes of the consulted binding list, or a
/// mode mismatch for a foreign bindings variant.
pub open spec fn spec_button(bs: Bindings, btn: Button, press: bool) -> Result<Seq<SinkOp>, Error> {
    if diamond_supported(bs) {
        Ok(spec_list_writes(spec_diamond_list(bs, btn), press))
    } else {
        Err(Error::Config(ConfigError::BindingModeMismatch))
    }
}

/// Every code the handler's consulted list can emit is a code of the
/// group's bindings as a whole.
pub proof fn lemma_diamond_list_codes(bs: Bindings, btn: Button, code: u16)
    requires
        crate::emit::spec_list_codes(spec_diamond_list(bs, btn)).contains(code),
    ensures
        crate::emit::spec_bindings_codes(bs).contains(code),
{
    let ls = crate::emit::spec_binding_lists(bs);
    match bs {
        Bindings::FourButtons { .. } => match btn {
            Button::A => crate::emit::lemma_lists_codes_member(ls, 0, code),
            Button::B => crate::emit::lemma_lists_codes_member(ls, 1, code),
            Button::X => crate::emit::lemma_lists_codes_member(ls, 2, code),
            Button::Y => crate::emit::lemma_lists_codes_member(ls, 3, code),
            _ => {},
        },
        Bindings::DPad { .. } => match btn {
            Button::A => crate::emit::lemma_lists_codes_member(ls, 1, code),
            Button::B => crate::emit::lemma_lists_codes_member(ls, 2, code),
            Button::X => crate::emit::lemma_lists_codes_member(ls, 3, code),
            Button::Y => crate::emit::lemma_lists_codes_member(ls, 0, code),
            _ => {},
        },
        _ => {},
    }
}

/// Dispatch one diamond-button edge against a group's bindings.
///
/// A sub-control with no binding yields no write; a bindings variant foreign
/// to this handler yields `BindingModeMismatch`, never a silent no-op.
pub fn button(bindings: &Bindings, btn: Button, press: bool) -> (r: Result<Vec<SinkOp>, Error>)
    ensures
        r is Err <==> !diamond_supported(*bindings),
        spec_button(*bindings, btn, press) matches Ok(w) ==> (r matches Ok(v) && v@ == w),
        spec_button(*bindings, btn, press) matches Err(e) ==> r == Err::<Vec<SinkOp>, Error>(e),
{
    proof {
        assert(spec_list_writes(Seq::<Binding>::empty(), press) == Seq::<SinkOp>::empty());
    }
    match bindings {
        Bindings::FourButtons { a, b, x, y } => match btn {
            Button::A => Ok(write_list(a, press)),
            Button::B => Ok(write_list(b, press)),
            Button::X => Ok(write_list(x, press)),
            Button::Y => Ok(write_list(y, press)),
            _ => Ok(Vec::new()),
        },
        Bindings::DPad { north, south, east, west, .. } => match btn {
            Button::A => Ok(write_list(south, press)),
            Button::B => Ok(write_list(east, press)),
            Button::X => Ok(write_list(west, press)),
            Button::Y => Ok(write_list(north, press)),
            _ => Ok(Vec::new()),
        },
        _ => Err(Error::Config(ConfigError::BindingModeMismatch)),
    }
}

} // verus!
