//! What the inbound half of a transport can yield.

use vstd::prelude::*;

verus! {

/// One item read from the inbound half of a transport.
#[derive(Debug, PartialEq, Eq)]
pub enum Inbound {
    /// A well-formed text message.
    Text(String),
    /// A well-formed item that carries no text payload.
    Other,
    /// An item that could not be read as a message.
    Malformed,
    /// The end of the inbound sequence: the peer closed the transport.
    Closed,
}

impl Inbound {
    /// Whether the item is a well-formed message of any sort.
    pub open spec fn is_message(&self) -> bool {
        self is Text || self is Other
    }

    /// Whether the item shows that the peer is gone: the end of the sequence
    /// or an item that is no message.
    pub open spec fn is_peer_gone(&self) -> bool {
        self is Malformed || self is Closed
    }
}

} // verus!
