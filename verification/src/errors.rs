//! The failure taxonomy of the resolution engine.
//!
//! Absence of a package on a channel is never an error: it is reported as
//! an empty result. These types cover only the hard failures.

use vstd::prelude::*;

verus! {

/// A hard failure of one channel's session while serving a single
/// upstream exchange.
#[derive(Clone, Copy, PartialEq, Eq, Structural, Debug)]
pub enum ChannelError {
    /// The credential exchange was rejected after the one allowed retry;
    /// the cached session for the channel is evicted.
    AuthenticationFailed,
    /// A network or timeout failure, potentially transient.
    TransportError,
    /// The upstream payload violated the minimal envelope shape.
    MalformedResponse,
}

/// A failure of a whole query.
#[derive(Clone, Copy, PartialEq, Eq, Structural, Debug)]
pub enum CoreError {
    /// A channel hit a hard error while the query required it to succeed.
    Session(ChannelError),
    /// A delivery was requested without a version code and the channel's
    /// details carry none.
    NoVersionAvailable,
    /// Every channel of a multi-channel query hit a hard error; carries
    /// one representative error (the last one observed).
    AllChannelsFailed(ChannelError),
}

} // verus!
