use vstd::prelude::*;

verus! {

/// Every way an operation of the relay can fail.
///
/// All errors are terminal for the invoking operation: none is retried
/// internally, and a failed operation leaves no partial state mutation
/// behind. Errors are surfaced verbatim to the caller.
#[derive(Clone, Copy, PartialEq, Eq, Structural, Debug)]
pub enum ErrorCode {
    /// The connection state already exists; `initialize` is one-time.
    AlreadyInitialized,
    /// The caller is not the registered administrator.
    Unauthorized,
    /// The caller is not the registered call-service identity.
    OnlyCallService,
    /// A negative sequence hint was supplied to an outbound send.
    InvalidSequenceHint,
    /// No fee entry exists for the requested destination network.
    FeeNotFound,
    /// The message fee plus the response fee exceeds the integer range.
    FeeOverflow,
    /// The supplied payment does not cover the computed fee.
    InsufficientFee,
    /// The inbound message was already delivered once.
    DuplicateMessage,
}

} // verus!
