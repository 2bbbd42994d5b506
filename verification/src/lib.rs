//! Connection-layer relay for a cross-network messaging protocol.
//!
//! The library models the fee/sequence/dedup state machine that sits between
//! an application-level call service and an off-chain relayer: it meters
//! outbound messages with per-destination fees, assigns monotonic sequence
//! numbers to outbound messages, deduplicates inbound deliveries, and gates
//! every administrative mutation behind a single authorized identity.
//!
//! The host environment (persistent storage, identity assertion, balance
//! transfer, the event log) is an external collaborator: the state machine is
//! an explicitly passed, exclusively owned value, and every operation is a
//! single atomic read-modify-write over it.

pub mod connection;
pub mod errors;
pub mod fees;
pub mod laws;
pub mod receipts;
pub mod service;
pub mod types;

pub use connection::ConnectionState;
pub use errors::ErrorCode;
pub use receipts::ReceiptState;
pub use receipts::ReceiptTracker;
pub use service::ICallService;
pub use fees::FeeSchedule;
pub use fees::FeeTerms;
pub use fees::FeesState;
pub use types::Address;
pub use types::MessageEvent;
