//! Transport protocol: control-frame framing, the fixed command payloads,
//! and the decisions around one report read. The embedding program performs
//! the actual transfers; these functions compute the exact bytes and the
//! commands owed.

use vstd::prelude::*;

use crate::input::Event;
use crate::state::{decode, diff, spec_decode, spec_diff, State};
use crate::Error;

verus! {

/// A command the embedding program owes the device.
#[derive(Clone, Copy, Debug, PartialEq, Eq, Structural)]
pub enum ControlCommand {
    /// Disable the motion sensors (payload encoding is the transport's
    /// concern).
    SensorsOff,
    /// The protocol reset command; its payload is `reset_payload`.
    Reset,
    /// The power-down command; its payload is `off_payload`.
    PowerOff,
}

/// The length of a raw report, and of an unframed control frame.
pub const FRAME_LEN: usize = 64;

/// A control frame: the payload at the front, zero-padded to the frame
/// length, with one leading report-id byte on framed transports.
pub open spec fn spec_frame(payload: Seq<u8>, framed: bool) -> Seq<u8> {
    let body = payload + Seq::new((FRAME_LEN - payload.len()) as nat, |i: int| 0u8);
    if framed {
        seq![0u8] + body
    } else {
        body
    }
}

/// Build one control frame from a command payload.
///
/// Unframed transports send exactly the frame length; framed transports
/// prepend one zero report-id byte.
pub fn control_frame(payload: &Vec<u8>, framed: bool) -> (r: Vec<u8>)
    requires
        payload@.len() <= FRAME_LEN,
    ensures
        r@ == spec_frame(payload@, framed),
        r@.len() == if framed { (FRAME_LEN + 1) as int } else { FRAME_LEN as int },
{
    let mut r: Vec<u8> = Vec::new();
    if framed {
        r.push(0u8);
    }
    let ghost head = if framed { seq![0u8] } else { Seq::<u8>::empty() };
    proof {
        assert(r@ =~= head);
        assert(payload@.take(0) =~= Seq::<u8>::empty());
        assert(head + Seq::<u8>::empty() =~= head);
    }
    let mut i: usize = 0;
    while i < payload.len()
        invariant
            i <= payload@.len(),
            r@ == head + payload@.take(i as int),
        decreases payload@.len() - i,
    {
        r.push(payload[i]);
        proof {
            crate::util::lemma_take_succ(payload@, i as int);
            crate::util::lemma_add_push(head, payload@.take(i as int), payload@[i as int]);
        }
        i = i + 1;
    }
    proof {
        crate::util::lemma_take_all(payload@);
    }
    let target: usize = if framed { FRAME_LEN + 1 } else { FRAME_LEN };
    let ghost base = r@;
    let ghost pad_total = (FRAME_LEN - payload@.len()) as nat;
    proof {
        assert(Seq::new(0nat, |k: int| 0u8) =~= Seq::<u8>::empty());
        assert(base + Seq::<u8>::empty() =~= base);
    }
    while r.len() < target
        invariant
            target == if framed { (FRAME_LEN + 1) as int } else { FRAME_LEN as int },
            base.len() + pad_total == target,
            base.len() <= r@.len() <= target,
            r@ == base + Seq::new((r@.len() - base.len()) as nat, |k: int| 0u8),
        decreases target - r@.len(),
    {
        let ghost n = (r@.len() - base.len()) as nat;
        r.push(0u8);
        proof {
            assert(Seq::new((n + 1) as nat, |k: int| 0u8) =~= Seq::new(n, |k: int| 0u8).push(
                0u8,
            ));
            crate::util::lemma_add_push(base, Seq::new(n, |k: int| 0u8), 0u8);
        }
    }
    proof {
        assert(r@.len() - base.len() == pad_total);
        assert(r@ =~= spec_frame(payload@, framed));
    }
    r
}

/// The payload of the protocol reset command.
pub fn reset_payload() -> (r: Vec<u8>)
    ensures
        r@ == seq![0x81u8],
{
    let mut r: Vec<u8> = Vec::new();
    r.push(0x81u8);
    proof {
        assert(r@ =~= seq![0x81u8]);
    }
    r
}

/// The payload of the power-down command.
pub fn off_payload() -> (r: Vec<u8>)
    ensures
        r@ == seq![0x9fu8, 0x04u8, 0x6fu8, 0x66u8, 0x66u8, 0x21u8],
{
    let mut r: Vec<u8> = Vec::new();
    r.push(0x9fu8);
    r.push(0x04u8);
    r.push(0x6fu8);
    r.push(0x66u8);
    r.push(0x66u8);
    r.push(0x21u8);
    proof {
        assert(r@ =~= seq![0x9fu8, 0x04u8, 0x6fu8, 0x66u8, 0x66u8, 0x21u8]);
    }
    r
}

/// Whether a product identifier is the wireless receiver.
pub fn is_remote(product: u16) -> (r: bool)
    ensures
        r == (product == 0x1142),
{
    product == 0x1142
}

/// Whether a product identifier is the wired device.
pub fn is_wired(product: u16) -> (r: bool)
    ensures
        r == (product == 0x1102),
{
    product == 0x1102
}

/// The commands owed after decoding a snapshot: a power-on condition
/// demands the sensors be disabled and the protocol reset re-run before the
/// caller acts on the state, so the device returns to a known baseline.
pub open spec fn spec_wake(s: State) -> Seq<ControlCommand> {
    if s.power {
        seq![ControlCommand::SensorsOff, ControlCommand::Reset]
    } else {
        Seq::empty()
    }
}

/// The commands owed after decoding a snapshot; see `spec_wake`.
pub fn wake_commands(s: &State) -> (r: Vec<ControlCommand>)
    ensures
        r@ == spec_wake(*s),
{
    let mut r: Vec<ControlCommand> = Vec::new();
    if s.power {
        r.push(ControlCommand::SensorsOff);
        r.push(ControlCommand::Reset);
        proof {
            assert(r@ =~= seq![ControlCommand::SensorsOff, ControlCommand::Reset]);
        }
    } else {
        proof {
            assert(r@ =~= Seq::<ControlCommand>::empty());
        }
    }
    r
}

/// Process one raw report against the previous snapshot: decode it, derive
/// the edge events, and compute the commands owed before the caller sees
/// the state.
///
/// A malformed report surfaces exactly the decode error; nothing is padded
/// or retried here.
pub fn read_state(prev: &State, report: &Vec<u8>) -> (r: Result<
    (State, Vec<Event>, Vec<ControlCommand>),
    Error,
>)
    ensures
        spec_decode(report@) matches Err(e) ==> r == Err::<
            (State, Vec<Event>, Vec<ControlCommand>),
            Error,
        >(e),
        spec_decode(report@) matches Ok(s) ==> (r matches Ok(t) && t.0 == s && t.1@ == spec_diff(
            *prev,
            s,
        ) && t.2@ == spec_wake(s)),
{
    match decode(report) {
        Err(e) => Err(e),
        Ok(s) => {
            let events = diff(prev, &s);
            let commands = wake_commands(&s);
            Ok((s, events, commands))
        },
    }
}

} // verus!
