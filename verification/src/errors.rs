//! The error taxonomy of the streaming client.

use vstd::prelude::*;

verus! {

/// Everything that a client operation can report.
///
/// Transport failures are fatal to the connection; the registry errors and
/// `NotReady` report caller misuse; `ConnectionClosed` reports an operation
/// attempted after the connection went down; `ProtocolDecodeError` reports a
/// malformed inbound frame or body.
#[derive(Clone, Copy, Debug, PartialEq, Eq, Structural)]
pub enum StreamError {
    TransportError,
    ProtocolDecodeError,
    DuplicateSubscription,
    UnknownSubscription,
    NotReady,
    ConnectionClosed,
}

impl StreamError {
    /// A short description, for callers that report errors as text.
    pub fn describe(&self) -> (r: &'static str)
        ensures
            r@.len() > 0,
            *self is TransportError ==> r@ == "transport failure"@,
            *self is ProtocolDecodeError ==> r@ == "malformed frame or body"@,
            *self is DuplicateSubscription ==> r@ == "feed is already subscribed"@,
            *self is UnknownSubscription ==> r@ == "feed is not subscribed"@,
            *self is NotReady ==> r@ == "handshake has not completed"@,
            *self is ConnectionClosed ==> r@ == "connection is closed"@,
    {
        let r: &'static str = match self {
            Self::TransportError => "transport failure",
            Self::ProtocolDecodeError => "malformed frame or body",
            Self::DuplicateSubscription => "feed is already subscribed",
            Self::UnknownSubscription => "feed is not subscribed",
            Self::NotReady => "handshake has not completed",
            Self::ConnectionClosed => "connection is closed",
        };
        proof {
            reveal_strlit("transport failure");
            reveal_strlit("malformed frame or body");
            reveal_strlit("feed is already subscribed");
            reveal_strlit("feed is not subscribed");
            reveal_strlit("handshake has not completed");
            reveal_strlit("connection is closed");
        }
        r
    }
}

} // verus!
