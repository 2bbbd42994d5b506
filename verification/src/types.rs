use vstd::prelude::*;

verus! {

/// An opaque account identity of the host environment.
///
/// The relay only ever compares identities for equality; it never looks
/// inside one. The host's identity/authorization primitive guarantees that
/// the `caller` value handed to an operation is the identity that invoked it.
#[derive(Clone, Copy, PartialEq, Eq, Structural, Debug, Hash)]
pub struct Address {
    pub id: u64,
}

/// The record emitted once per successful outbound send.
///
/// Events are ephemeral: the relay appends them to the host's log for the
/// off-chain relayer to consume and keeps no history of its own.
#[derive(Clone, Debug)]
pub struct MessageEvent {
    /// The destination network the message is addressed to.
    pub destination_network: String,
    /// The outbound sequence number this layer assigned to the message.
    pub assigned_sequence: u64,
    /// The payload, opaque bytes to this layer.
    pub payload: Vec<u8>,
}

} // verus!
