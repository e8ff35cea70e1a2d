//! What a subscription asks of the transport: reliability, delivery mode
//! and period.

use vstd::prelude::*;

verus! {

/// The kind of reliability. It is handed to the session as it is; nothing
/// here enforces it.
#[derive(Clone, Copy, Debug, PartialEq, Eq, Structural)]
pub enum Reliability {
    BestEffort,
    Reliable,
}

/// The subscription mode: with `Push` samples arrive unsolicited, with
/// `Pull` the session keeps them until the subscriber pulls.
#[derive(Clone, Copy, Debug, PartialEq, Eq, Structural)]
pub enum SubMode {
    Push,
    Pull,
}

/// A scheduling hint for periodic pulls, forwarded as it is.
#[derive(Clone, Copy, Debug, PartialEq, Eq, Structural)]
pub struct Period {
    pub origin: u64,
    pub period: u64,
    pub duration: u64,
}

/// The part of a subscription's configuration that a networked declaration
/// carries.
#[derive(Clone, Copy, Debug, PartialEq, Eq)]
pub struct SubInfo {
    pub reliability: Reliability,
    pub mode: SubMode,
    pub period: Option<Period>,
}

} // verus!
