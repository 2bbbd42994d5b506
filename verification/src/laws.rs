use vstd::prelude::*;

use crate::connection::ConnectionState;
use crate::connection::delivery_step;
use crate::connection::send_step;

verus! {

/// Along a chain of successful sends, the counter at position `k` is the
/// starting counter plus `k`.
proof fn lemma_counter_advances(chain: Seq<ConnectionState>, k: int)
    requires
        0 <= k < chain.len(),
        forall|i: int| 0 <= i < chain.len() - 1 ==> #[trigger] send_step(chain[i], chain[i + 1]),
    ensures
        chain[k].outbound_sequence == chain[0].outbound_sequence + k,
    decreases k,
{
    if k > 0 {
        lemma_counter_advances(chain, k - 1);
        assert(send_step(chain[k - 1], chain[k - 1 + 1]));
    }
}

/// The outbound counter counts successful sends, and no two of them receive
/// the same sequence number.
///
/// `chain` is the connection state observed before the first and after each
/// of N successful `send_message` calls — consecutive entries are related by
/// `send_step`, the success-case relation of `send_message`'s contract — and
/// `assigned[i]` is the sequence number the i-th call's event carried. If the
/// connection starts with a counter of zero, as `initialize` leaves it, the
/// counter after the N successes is exactly N, and the assigned numbers are
/// pairwise distinct.
pub proof fn law_sequence_counts_sends(chain: Seq<ConnectionState>, assigned: Seq<u64>)
    requires
        chain.len() == assigned.len() + 1,
        chain[0].outbound_sequence == 0,
        forall|i: int| 0 <= i < assigned.len() ==> #[trigger] send_step(chain[i], chain[i + 1]),
        forall|i: int| 0 <= i < assigned.len() ==> #[trigger] assigned[i] == chain[i + 1].outbound_sequence,
    ensures
        chain.last().outbound_sequence == assigned.len(),
        forall|i: int, j: int| 0 <= i < j < assigned.len() ==> assigned[i] != assigned[j],
{
    assert forall|k: int| 0 <= k < chain.len() implies chain[k].outbound_sequence == k by {
        lemma_counter_advances(chain, k);
    }
    assert(chain.last().outbound_sequence == assigned.len());
    assert forall|i: int, j: int| 0 <= i < j < assigned.len() implies assigned[i]
        != assigned[j] by {
        assert(assigned[i] == i + 1);
        assert(assigned[j] == j + 1);
    }
}

/// A quote with a response path costs exactly the response fee more than a
/// quote without one, whenever the fee entry exists. In particular a quote is
/// never invented for an absent entry: `get_fee` fails with `FeeNotFound`
/// there, by its own contract.
pub proof fn law_response_fee_additive(connection: ConnectionState, network: Seq<char>)
    requires
        connection.fee_entry_exists(network),
    ensures
        connection.quoted_fee(network, true) == connection.quoted_fee(network, false)
            + connection.schedule@[network].response_fee,
{
}

/// Delivery happens at most once per key: after a successful delivery of a
/// key, no further successful delivery of the same key is possible — by
/// `recv_message`'s contract, a repeat is refused with `DuplicateMessage`
/// and changes nothing.
pub proof fn law_deliver_once(
    pre: ConnectionState,
    mid: ConnectionState,
    source_network: Seq<char>,
    inbound_sn: u64,
)
    requires
        delivery_step(pre, mid, source_network, inbound_sn),
    ensures
        mid.is_delivered(source_network, inbound_sn),
        forall|post: ConnectionState| !(#[trigger] delivery_step(mid, post, source_network, inbound_sn)),
{
    assert(mid.receipts@.contains((source_network, inbound_sn)));
}

} // verus!
