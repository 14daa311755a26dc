//! The error taxonomy of the engine.
//!
//! Every fault is fatal by design: enumeration bugs are meant to be loud
//! during bring-up, so the engine never guesses past an illegal request.

use vstd::prelude::*;

verus! {

/// A setup packet that could not be decoded into a standard request.
#[derive(Clone, Copy, Debug, PartialEq, Eq, Structural)]
pub enum ParseError {
    /// The bit pattern matches no known standard request.
    Unrecognized,
    /// A SET_ADDRESS value outside the range 1..=127.
    InvalidAddress,
}

/// A fatal condition met while handling an endpoint-0 event.
///
/// The engine stops at the first fault: there is no automatic retry and no
/// partial recovery.
#[derive(Clone, Copy, Debug, PartialEq, Eq, Structural)]
pub enum Fault {
    /// The setup packet did not parse; the transfer must not be attempted.
    Parse(ParseError),
    /// SET_ADDRESS arrived while the device was already configured, which
    /// the protocol forbids.
    IllegalStateTransition,
    /// A recognized request reached the dispatcher, but this minimal engine
    /// does not handle it and refuses to ignore it silently.
    UnsupportedRequest,
}

} // verus!
