//! The readiness waiter: what to wait for at a gate of the bring-up, and what to
//! do after each look at it.

use vstd::prelude::*;
use crate::iface::Ipv4;
use crate::retry::FILE_POLL_SECS;

verus! {

/// The port of the daemon's control interface.
pub const CONTROL_PORT: u16 = 10009;

/// What a gate waits for.
#[derive(Debug, Clone, PartialEq, Eq)]
pub enum Gate {
    /// A file or directory exists at this path.
    Path(String),
    /// This port accepts a connection.
    Tcp { address: Ipv4, port: u16 },
}

/// What follows one look at a gate.
#[derive(Clone, Copy, Debug, PartialEq, Eq, Structural)]
pub enum Wait {
    /// What was waited for is there.
    Proceed,
    /// Look again after this many seconds.
    Again { after_secs: u64 },
}

/// A gate is passed as soon as what it waits for is there; until then it is
/// looked at again after the poll interval, without limit.
pub open spec fn poll_spec(open: bool) -> Wait {
    if open {
        Wait::Proceed
    } else {
        Wait::Again { after_secs: FILE_POLL_SECS }
    }
}

/// What follows one look at a gate.
pub fn poll(open: bool) -> (w: Wait)
    ensures
        w == poll_spec(open),
{
    if open {
        Wait::Proceed
    } else {
        Wait::Again { after_secs: FILE_POLL_SECS }
    }
}

/// What the bootstrap waits for first: the daemon's control port at this address.
pub fn control_gate(address: Ipv4) -> (g: Gate)
    ensures
        g == (Gate::Tcp { address, port: CONTROL_PORT }),
{
    Gate::Tcp { address, port: CONTROL_PORT }
}

/// How an attempt to listen on a local port ended.
#[derive(Clone, Copy, Debug, PartialEq, Eq, Structural)]
pub enum BindOutcome {
    /// The port could be bound.
    Bound,
    /// The port is in use.
    InUse,
    /// The attempt failed for another reason.
    OtherFailure,
}

/// The use of a port could not be determined.
#[derive(Clone, Copy, Debug, PartialEq, Eq, Structural)]
pub struct PortUnknown {
    pub port: u16,
}

/// A port is available where it could be bound and taken where it is in use;
/// any other failure leaves its use unknown.
pub open spec fn port_available_spec(port: u16, outcome: BindOutcome) -> Result<bool, PortUnknown> {
    match outcome {
        BindOutcome::Bound => Ok(true),
        BindOutcome::InUse => Ok(false),
        BindOutcome::OtherFailure => Err(PortUnknown { port }),
    }
}

/// Whether a local port is available, from how the attempt to bind it ended.
pub fn port_available(port: u16, outcome: BindOutcome) -> (r: Result<bool, PortUnknown>)
    ensures
        r == port_available_spec(port, outcome),
{
    match outcome {
        BindOutcome::Bound => Ok(true),
        BindOutcome::InUse => Ok(false),
        BindOutcome::OtherFailure => Err(PortUnknown { port }),
    }
}

} // verus!
