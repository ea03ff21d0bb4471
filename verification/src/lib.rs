//! Driver core for a handheld game controller with dual trackpads, a
//! four-button diamond, triggers and a power/battery status channel.
//!
//! The crate decodes the device's fixed-size binary reports into structured
//! state, derives discrete edge events by diffing consecutive snapshots, and
//! remaps those events onto an abstract virtual input device according to a
//! layered, swappable binding configuration. All transport and virtual-device
//! I/O is left to the embedding program; this crate computes exactly which
//! bytes to send and which sink operations to perform.

use vstd::prelude::*;

pub mod button_diamond;
pub mod bytes;
pub mod config;
pub mod emit;
pub mod input;
pub mod mapper;
pub mod pad_right;
pub mod protocol;
pub mod sink;
pub mod state;
pub mod trackpad_left;
pub mod util;

verus! {

/// Failures of the physical transport, reported by the embedding program.
#[derive(Clone, Copy, Debug, PartialEq, Eq, Structural)]
pub enum TransportError {
    /// The device could not be opened.
    Open,
    /// A report read failed.
    Read,
    /// A control write failed.
    Write,
    /// A report read returned fewer bytes than a full report.
    ShortRead,
    /// The expected interrupt endpoint was not found.
    EndpointNotFound,
}

/// Failures to decode a raw report.
#[derive(Clone, Copy, Debug, PartialEq, Eq, Structural)]
pub enum ProtocolError {
    /// The report is not exactly one report long.
    BadLength,
    /// The report-kind discriminant byte is out of range.
    BadDiscriminant,
    /// A boolean flag byte holds a value other than zero or one.
    BadFlag,
}

/// Defects in the binding configuration.
#[derive(Clone, Copy, Debug, PartialEq, Eq, Structural)]
pub enum ConfigError {
    /// A `Bindings` variant reached a handler whose `Mode` cannot use it.
    BindingModeMismatch,
}

/// The error taxonomy of the crate.
#[derive(Clone, Copy, Debug, PartialEq, Eq, Structural)]
pub enum Error {
    Transport(TransportError),
    Protocol(ProtocolError),
    Config(ConfigError),
    /// A mode/slot combination with no implemented handler.
    NotSupported,
}

} // verus!
