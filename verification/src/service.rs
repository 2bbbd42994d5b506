use vstd::prelude::*;

use crate::errors::ErrorCode;

verus! {

/// The call service the relay mediates for: the trusted application-level
/// module that originates outbound sends and consumes inbound deliveries and
/// error reports.
///
/// The relay invokes this interface but does not implement it; the host wires
/// a concrete call-service adapter in. Both methods are synchronous: they
/// complete or fail before the invoking operation returns, and the relay only
/// propagates their verdict — it never retries or re-delivers.
pub trait ICallService {
    /// Delivers an inbound payload that arrived from `src_network`.
    fn handle_message(&mut self, src_network: String, msg: Vec<u8>) -> Result<(), ErrorCode>;

    /// Reports that the outbound message the relay assigned sequence number
    /// `sn` to could not be completed.
    fn handle_error(&mut self, sn: u64) -> Result<(), ErrorCode>;
}

} // verus!
