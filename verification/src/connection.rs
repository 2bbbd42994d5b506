use vstd::prelude::*;

use crate::errors::ErrorCode;
use crate::fees::FeeSchedule;
use crate::fees::FeeTerms;
use crate::fees::checked_total;
use crate::receipts::ReceiptTracker;
use crate::service::ICallService;
use crate::types::Address;
use crate::types::MessageEvent;

verus! {

/// The connection's entire persistent state: one instance per deployed
/// connection, exclusively owned and threaded through every operation.
///
/// Every exposed operation is a single atomic read-modify-write over this
/// value: an operation that fails leaves it exactly as it was.
pub struct ConnectionState {
    /// Whether `initialize` has run; no other mutation is defined before it.
    pub initialized: bool,
    /// The identity authorized for all admin operations, and the trusted
    /// relayer identity for inbound delivery.
    pub admin_identity: Address,
    /// The trusted call-service module's identity; immutable after
    /// initialization.
    pub call_service_identity: Address,
    /// Strictly increasing outbound counter: after N successful sends it
    /// equals N, and it is never decremented or reused.
    pub outbound_sequence: u64,
    /// The per-destination fee table.
    pub schedule: FeeSchedule,
    /// The record of already-delivered inbound messages.
    pub receipts: ReceiptTracker,
    /// Escrow ledger of the fees collected and not yet claimed.
    pub collected_fees: u64,
}

/// The success-case shape of an outbound send: the counter advances by
/// exactly one and everything except the escrow ledger is untouched.
pub open spec fn send_step(pre: ConnectionState, post: ConnectionState) -> bool {
    &&& post.initialized == pre.initialized
    &&& post.admin_identity == pre.admin_identity
    &&& post.call_service_identity == pre.call_service_identity
    &&& post.outbound_sequence == pre.outbound_sequence + 1
    &&& post.schedule == pre.schedule
    &&& post.receipts == pre.receipts
}

/// The success-case shape of an inbound delivery: a key not delivered before
/// becomes delivered, and nothing else changes.
pub open spec fn delivery_step(
    pre: ConnectionState,
    post: ConnectionState,
    source_network: Seq<char>,
    inbound_sn: u64,
) -> bool {
    &&& !pre.is_delivered(source_network, inbound_sn)
    &&& post.receipts@ == pre.receipts@.insert((source_network, inbound_sn))
    &&& post.initialized == pre.initialized
    &&& post.admin_identity == pre.admin_identity
    &&& post.call_service_identity == pre.call_service_identity
    &&& post.outbound_sequence == pre.outbound_sequence
    &&& post.schedule == pre.schedule
    &&& post.collected_fees == pre.collected_fees
}

impl ConnectionState {
    /// The state is initialized and its fee table is well-formed. Established
    /// by `initialize` and preserved by every operation.
    pub open spec fn inv(self) -> bool {
        &&& self.initialized
        &&& self.schedule.wf()
    }

    /// A fee entry exists for `network`.
    pub open spec fn fee_entry_exists(self, network: Seq<char>) -> bool {
        self.schedule@.dom().contains(network)
    }

    /// The cost quoted for a send to `network`, as an unbounded integer: the
    /// message fee, plus the response fee when a response is requested.
    pub open spec fn quoted_fee(self, network: Seq<char>, include_response: bool) -> int {
        if include_response {
            self.schedule@[network].message_fee + self.schedule@[network].response_fee
        } else {
            self.schedule@[network].message_fee as int
        }
    }

    /// The inbound message keyed by `source_network` and `inbound_sn` was
    /// already delivered.
    pub open spec fn is_delivered(self, source_network: Seq<char>, inbound_sn: u64) -> bool {
        self.receipts@.contains((source_network, inbound_sn))
    }

    /// An empty, not yet initialized connection state: the storage slot as
    /// the host creates it.
    pub fn new() -> (connection: ConnectionState)
        ensures
            !connection.initialized,
            connection.schedule.wf(),
            connection.admin_identity == (Address { id: 0 }),
            connection.call_service_identity == (Address { id: 0 }),
            connection.outbound_sequence == 0,
            connection.collected_fees == 0,
            connection.schedule@ == Map::<Seq<char>, FeeTerms>::empty(),
            connection.receipts@ == Set::<(Seq<char>, u64)>::empty(),
    {
        ConnectionState {
            initialized: false,
            admin_identity: Address { id: 0 },
            call_service_identity: Address { id: 0 },
            outbound_sequence: 0,
            schedule: FeeSchedule::new(),
            receipts: ReceiptTracker::new(),
            collected_fees: 0,
        }
    }

    /// One-time initialization: records the administrator and the call
    /// service and starts the outbound counter at zero. Fails with
    /// `AlreadyInitialized`, and changes nothing, if the state already
    /// exists; any caller may perform the first initialization.
    pub fn initialize(
        &mut self,
        _caller: Address,
        initial_admin: Address,
        call_service: Address,
    ) -> (result: Result<(), ErrorCode>)
        requires
            old(self).schedule.wf(),
        ensures
            final(self).schedule.wf(),
            old(self).initialized ==> result == Err::<(), ErrorCode>(
                ErrorCode::AlreadyInitialized,
            ) && *final(self) == *old(self),
            !old(self).initialized ==> {
                &&& result == Ok::<(), ErrorCode>(())
                &&& final(self).inv()
                &&& final(self).admin_identity == initial_admin
                &&& final(self).call_service_identity == call_service
                &&& final(self).outbound_sequence == 0
                &&& final(self).schedule == old(self).schedule
                &&& final(self).receipts == old(self).receipts
                &&& final(self).collected_fees == old(self).collected_fees
            },
    {
        if self.initialized {
            return Err(ErrorCode::AlreadyInitialized);
        }
        self.initialized = true;
        self.admin_identity = initial_admin;
        self.call_service_identity = call_service;
        self.outbound_sequence = 0;
        Ok(())
    }

    /// Hands the admin role over. Fails with `Unauthorized`, and changes
    /// nothing, unless the caller is the current administrator; any new admin
    /// value is allowed, self-assignment included.
    pub fn set_admin(&mut self, caller: Address, new_admin: Address) -> (result: Result<
        (),
        ErrorCode,
    >)
        requires
            old(self).inv(),
        ensures
            final(self).inv(),
            caller != old(self).admin_identity ==> result == Err::<(), ErrorCode>(
                ErrorCode::Unauthorized,
            ) && *final(self) == *old(self),
            caller == old(self).admin_identity ==> {
                &&& result == Ok::<(), ErrorCode>(())
                &&& final(self).admin_identity == new_admin
                &&& final(self).initialized == old(self).initialized
                &&& final(self).call_service_identity == old(self).call_service_identity
                &&& final(self).outbound_sequence == old(self).outbound_sequence
                &&& final(self).schedule == old(self).schedule
                &&& final(self).receipts == old(self).receipts
                &&& final(self).collected_fees == old(self).collected_fees
            },
    {
        if caller != self.admin_identity {
            return Err(ErrorCode::Unauthorized);
        }
        self.admin_identity = new_admin;
        Ok(())
    }

    /// The current administrator identity: a pure read, open to any caller.
    pub fn get_admin(&self) -> (admin: Address)
        ensures
            admin == self.admin_identity,
    {
        self.admin_identity
    }

    /// Creates or overwrites the fee entry for `network`. Fails with
    /// `Unauthorized`, and changes nothing, unless the caller is the
    /// administrator; fee magnitudes are not otherwise restricted.
    pub fn set_fee(
        &mut self,
        caller: Address,
        network: String,
        message_fee: u64,
        response_fee: u64,
    ) -> (result: Result<(), ErrorCode>)
        requires
            old(self).inv(),
        ensures
            final(self).inv(),
            caller != old(self).admin_identity ==> result == Err::<(), ErrorCode>(
                ErrorCode::Unauthorized,
            ) && *final(self) == *old(self),
            caller == old(self).admin_identity ==> {
                &&& result == Ok::<(), ErrorCode>(())
                &&& final(self).schedule@ == old(self).schedule@.insert(
                    network@,
                    (FeeTerms { message_fee, response_fee }),
                )
                &&& final(self).initialized == old(self).initialized
                &&& final(self).admin_identity == old(self).admin_identity
                &&& final(self).call_service_identity == old(self).call_service_identity
                &&& final(self).outbound_sequence == old(self).outbound_sequence
                &&& final(self).receipts == old(self).receipts
                &&& final(self).collected_fees == old(self).collected_fees
            },
    {
        if caller != self.admin_identity {
            return Err(ErrorCode::Unauthorized);
        }
        self.schedule.set_entry(network, message_fee, response_fee);
        Ok(())
    }

    /// Quotes the cost of a send to `network`: the message fee, plus the
    /// response fee when `include_response` holds. Fails with `FeeNotFound`
    /// when no entry exists — absence is never a silent zero — and with
    /// `FeeOverflow` when the two terms do not fit the integer range.
    pub fn get_fee(&self, network: &String, include_response: bool) -> (result: Result<
        u64,
        ErrorCode,
    >)
        requires
            self.schedule.wf(),
        ensures
            !self.fee_entry_exists(network@) ==> result == Err::<u64, ErrorCode>(
                ErrorCode::FeeNotFound,
            ),
            self.fee_entry_exists(network@) && self.quoted_fee(network@, include_response)
                <= u64::MAX ==> (result matches Ok(fee) && fee == self.quoted_fee(
                network@,
                include_response,
            )),
            self.fee_entry_exists(network@) && self.quoted_fee(network@, include_response)
                > u64::MAX ==> result == Err::<u64, ErrorCode>(ErrorCode::FeeOverflow),
    {
        match self.schedule.lookup(network) {
            None => Err(ErrorCode::FeeNotFound),
            Some(terms) => checked_total(terms, include_response),
        }
    }

    /// Advances the outbound counter by exactly one and returns the new
    /// value. Called once per successful send, after fee verification, so a
    /// failed send never consumes a sequence number.
    fn next_sequence(&mut self) -> (sequence: u64)
        requires
            old(self).outbound_sequence < u64::MAX,
        ensures
            final(self).outbound_sequence == old(self).outbound_sequence + 1,
            sequence == final(self).outbound_sequence,
            final(self).initialized == old(self).initialized,
            final(self).admin_identity == old(self).admin_identity,
            final(self).call_service_identity == old(self).call_service_identity,
            final(self).schedule == old(self).schedule,
            final(self).receipts == old(self).receipts,
            final(self).collected_fees == old(self).collected_fees,
    {
        self.outbound_sequence = self.outbound_sequence + 1;
        self.outbound_sequence
    }

    /// Sends a message to `destination_network` on behalf of the call
    /// service.
    ///
    /// The sequence hint `sn` only says whether a response path is needed:
    /// positive requests one (message fee plus response fee), zero does not
    /// (message fee only), negative is rejected. It is not the sequence
    /// number this layer assigns; the returned event carries that. The
    /// service identifier is application-level routing data: this layer
    /// carries it in the signature but never interprets it.
    ///
    /// In order, the operation fails with `OnlyCallService` unless the caller
    /// is the call service, `InvalidSequenceHint` on a negative hint,
    /// `FeeNotFound`/`FeeOverflow` out of the fee quote, and
    /// `InsufficientFee` when `payment` does not cover the quote. Any failure
    /// leaves the state — counter and escrow included — unchanged.
    pub fn send_message(
        &mut self,
        caller: Address,
        destination_network: String,
        _service_id: String,
        sn: i64,
        payload: Vec<u8>,
        payment: u64,
    ) -> (result: Result<MessageEvent, ErrorCode>)
        requires
            old(self).inv(),
            old(self).outbound_sequence < u64::MAX,
            old(self).collected_fees + payment <= u64::MAX,
        ensures
            final(self).inv(),
            caller != old(self).call_service_identity ==> result == Err::<
                MessageEvent,
                ErrorCode,
            >(ErrorCode::OnlyCallService) && *final(self) == *old(self),
            caller == old(self).call_service_identity && sn < 0 ==> result == Err::<
                MessageEvent,
                ErrorCode,
            >(ErrorCode::InvalidSequenceHint) && *final(self) == *old(self),
            caller == old(self).call_service_identity && sn >= 0 && !old(self).fee_entry_exists(
                destination_network@,
            ) ==> result == Err::<MessageEvent, ErrorCode>(ErrorCode::FeeNotFound) && *final(self)
                == *old(self),
            caller == old(self).call_service_identity && sn >= 0 && old(self).fee_entry_exists(
                destination_network@,
            ) && old(self).quoted_fee(destination_network@, sn > 0) > u64::MAX ==> result == Err::<
                MessageEvent,
                ErrorCode,
            >(ErrorCode::FeeOverflow) && *final(self) == *old(self),
            caller == old(self).call_service_identity && sn >= 0 && old(self).fee_entry_exists(
                destination_network@,
            ) && old(self).quoted_fee(destination_network@, sn > 0) <= u64::MAX && payment < old(
                self,
            ).quoted_fee(destination_network@, sn > 0) ==> result == Err::<
                MessageEvent,
                ErrorCode,
            >(ErrorCode::InsufficientFee) && *final(self) == *old(self),
            caller == old(self).call_service_identity && sn >= 0 && old(self).fee_entry_exists(
                destination_network@,
            ) && old(self).quoted_fee(destination_network@, sn > 0) <= u64::MAX && payment >= old(
                self,
            ).quoted_fee(destination_network@, sn > 0) ==> {
                &&& send_step(*old(self), *final(self))
                &&& final(self).collected_fees == old(self).collected_fees + old(self).quoted_fee(
                    destination_network@,
                    sn > 0,
                )
                &&& result matches Ok(event) && event.destination_network@ == destination_network@
                    && event.assigned_sequence == old(self).outbound_sequence + 1
                    && event.payload@ == payload@
            },
    {
        if caller != self.call_service_identity {
            return Err(ErrorCode::OnlyCallService);
        }
        if sn < 0 {
            return Err(ErrorCode::InvalidSequenceHint);
        }
        let fee = match self.get_fee(&destination_network, sn > 0) {
            Ok(fee) => fee,
            Err(error) => {
                return Err(error);
            },
        };
        if payment < fee {
            return Err(ErrorCode::InsufficientFee);
        }
        let assigned_sequence = self.next_sequence();
        self.collected_fees = self.collected_fees + fee;
        Ok(MessageEvent { destination_network, assigned_sequence, payload })
    }

    /// Accepts an inbound message from the relayer and forwards it to the
    /// call service.
    ///
    /// Fails with `Unauthorized` unless the caller is the administrator (the
    /// trusted relayer in this design), and with `DuplicateMessage` — a
    /// deliberate no-op, so a retry-happy relayer can treat it as "already
    /// done" — when the key was delivered before; either failure changes
    /// nothing. Otherwise the key is marked delivered before the payload is
    /// forwarded, and stays marked even if the call service fails, whose
    /// verdict is returned: delivery happens once, and downstream failure is
    /// the call service's to handle.
    pub fn recv_message<C: ICallService>(
        &mut self,
        caller: Address,
        source_network: String,
        inbound_sn: u64,
        payload: Vec<u8>,
        service: &mut C,
    ) -> (result: Result<(), ErrorCode>)
        requires
            old(self).inv(),
        ensures
            final(self).inv(),
            caller != old(self).admin_identity ==> result == Err::<(), ErrorCode>(
                ErrorCode::Unauthorized,
            ) && *final(self) == *old(self) && *final(service) == *old(service),
            caller == old(self).admin_identity && old(self).is_delivered(
                source_network@,
                inbound_sn,
            ) ==> result == Err::<(), ErrorCode>(ErrorCode::DuplicateMessage) && *final(self)
                == *old(self) && *final(service) == *old(service),
            caller == old(self).admin_identity && !old(self).is_delivered(
                source_network@,
                inbound_sn,
            ) ==> delivery_step(*old(self), *final(self), source_network@, inbound_sn),
    {
        if caller != self.admin_identity {
            return Err(ErrorCode::Unauthorized);
        }
        if self.receipts.contains(&source_network, inbound_sn) {
            return Err(ErrorCode::DuplicateMessage);
        }
        let forwarded_network = source_network.clone();
        self.receipts.record(source_network, inbound_sn);
        service.handle_message(forwarded_network, payload)
    }

    /// Whether the inbound message keyed by `source_network` and
    /// `inbound_sn` was delivered: a pure read, open to any caller, that
    /// never errs — an unknown key reads as not delivered.
    pub fn get_receipt(&self, source_network: &String, inbound_sn: u64) -> (delivered: bool)
        ensures
            delivered == self.is_delivered(source_network@, inbound_sn),
    {
        self.receipts.contains(source_network, inbound_sn)
    }

    /// Reports a failed outbound message back to the call service: a pure
    /// authorization and forwarding gate that mutates nothing in this layer.
    ///
    /// Fails with `OnlyCallService`, without touching the call service,
    /// unless the caller is the call service itself; otherwise it returns the
    /// call service's own verdict on `handle_error(sn)`.
    pub fn revert_message<C: ICallService>(
        &self,
        caller: Address,
        sn: u64,
        service: &mut C,
    ) -> (result: Result<(), ErrorCode>)
        requires
            self.inv(),
        ensures
            caller != self.call_service_identity ==> result == Err::<(), ErrorCode>(
                ErrorCode::OnlyCallService,
            ) && *final(service) == *old(service),
    {
        if caller != self.call_service_identity {
            return Err(ErrorCode::OnlyCallService);
        }
        service.handle_error(sn)
    }

    /// Withdraws the entire accumulated fee balance: the escrow ledger drops
    /// to zero and the amount to hand `_destination` is returned for the
    /// host's balance-transfer primitive to move. Fails with `Unauthorized`,
    /// and changes nothing, unless the caller is the administrator. No
    /// partial claim is defined.
    pub fn claim_fees(&mut self, caller: Address, _destination: Address) -> (result: Result<
        u64,
        ErrorCode,
    >)
        requires
            old(self).inv(),
        ensures
            final(self).inv(),
            caller != old(self).admin_identity <==> result == Err::<u64, ErrorCode>(
                ErrorCode::Unauthorized,
            ),
            caller != old(self).admin_identity ==> *final(self) == *old(self),
            caller == old(self).admin_identity ==> {
                &&& result == Ok::<u64, ErrorCode>(old(self).collected_fees)
                &&& final(self).collected_fees == 0
                &&& final(self).initialized == old(self).initialized
                &&& final(self).admin_identity == old(self).admin_identity
                &&& final(self).call_service_identity == old(self).call_service_identity
                &&& final(self).outbound_sequence == old(self).outbound_sequence
                &&& final(self).schedule == old(self).schedule
                &&& final(self).receipts == old(self).receipts
            },
    {
        if caller != self.admin_identity {
            return Err(ErrorCode::Unauthorized);
        }
        let claimed = self.collected_fees;
        self.collected_fees = 0;
        Ok(claimed)
    }
}

} // verus!
