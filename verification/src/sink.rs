//! Operations on the abstract event sink: the virtual input device that the
//! embedding program drives on the crate's behalf.
//!
//! The crate never performs these operations itself; it computes the exact
//! sequence the sink owes for a construction or a dispatch, and the
//! embedding program replays them on the real device.

use vstd::prelude::*;

verus! {

/// An axis of the virtual device.
#[derive(Clone, Copy, Debug, PartialEq, Eq, Structural)]
pub enum Axis {
    X,
    Y,
}

/// One operation on the event sink.
#[derive(Clone, Copy, Debug, PartialEq, Eq, Structural)]
pub enum SinkOp {
    /// Declare a raw-emittable button capability, once at setup.
    DeclareButton(u16),
    /// Declare an absolute axis with `(min, max, fuzz, flat)`, once at setup.
    DeclareAxis(Axis, i32, i32, i32, i32),
    /// Declare a relative axis, once at setup.
    DeclareRelative(Axis),
    /// Write one press/release or key sample: `(code, value)`.
    Write(u16, i32),
    /// Write one absolute axis sample.
    AxisWrite(Axis, i32),
    /// Write one relative axis delta.
    RelativeWrite(Axis, i32),
    /// Commit everything written since the last commit as one atomic input
    /// frame.
    Synchronize,
}

} // verus!
