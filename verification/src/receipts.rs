use vstd::prelude::*;

verus! {

/// One stored receipt: an inbound message, keyed by its source network and
/// the sequence number the sending peer assigned, that was delivered here.
///
/// A receipt is created on the first delivery attempt for its key, and once
/// `receive_status` is true it is never reset. A key never written counts as
/// not delivered.
#[derive(Clone, Debug)]
pub struct ReceiptState {
    /// The network the inbound message came from.
    pub src_network: String,
    /// The sequence number the sending peer assigned to the message.
    pub conn_sn: u64,
    /// Whether the message has been delivered.
    pub receive_status: bool,
}

/// The per-source-network record of already-delivered inbound sequence
/// numbers, used to make a replayed delivery a no-op.
///
/// Its mathematical view is the set of delivered keys: pairs of the source
/// network identifier and the inbound sequence number.
pub struct ReceiptTracker {
    /// The stored receipts.
    pub entries: Vec<ReceiptState>,
}

impl View for ReceiptTracker {
    type V = Set<(Seq<char>, u64)>;

    /// The set of keys whose message was delivered.
    open spec fn view(&self) -> Set<(Seq<char>, u64)> {
        Set::new(
            |key: (Seq<char>, u64)|
                exists|i: int|
                    0 <= i < self.entries@.len() && self.entries@[i].receive_status
                        && self.entries@[i].src_network@ == key.0 && self.entries@[i].conn_sn
                        == key.1,
        )
    }
}

impl ReceiptTracker {
    /// An empty tracker: nothing was delivered yet.
    pub fn new() -> (tracker: ReceiptTracker)
        ensures
            tracker@ == Set::<(Seq<char>, u64)>::empty(),
    {
        let tracker = ReceiptTracker { entries: Vec::new() };
        proof {
            assert(tracker@ =~= Set::<(Seq<char>, u64)>::empty());
        }
        tracker
    }

    /// Whether the message keyed by `src_network` and `conn_sn` was already
    /// delivered. Never errs; an unknown key reads as not delivered.
    #[verifier::loop_isolation(false)]
    pub fn contains(&self, src_network: &String, conn_sn: u64) -> (delivered: bool)
        ensures
            delivered == self@.contains((src_network@, conn_sn)),
    {
        let mut i: usize = 0;
        while i < self.entries.len()
            invariant
                i <= self.entries@.len(),
                forall|j: int|
                    0 <= j < i ==> !(self.entries@[j].receive_status
                        && self.entries@[j].src_network@ == src_network@
                        && self.entries@[j].conn_sn == conn_sn),
            decreases self.entries@.len() - i,
        {
            if self.entries[i].receive_status && self.entries[i].conn_sn == conn_sn
                && self.entries[i].src_network == *src_network {
                return true;
            }
            i += 1;
        }
        false
    }

    /// Marks the key as delivered: afterwards the set of delivered keys is
    /// the old set with this key added.
    pub fn record(&mut self, src_network: String, conn_sn: u64)
        ensures
            final(self)@ == old(self)@.insert((src_network@, conn_sn)),
    {
        let ghost pre = *self;
        self.entries.push(ReceiptState { src_network, conn_sn, receive_status: true });
        proof {
            let n = pre.entries@.len() as int;
            assert forall|key: (Seq<char>, u64)| #[trigger] self@.contains(key) implies pre@.insert(
                (src_network@, conn_sn),
            ).contains(key) by {
                let i = choose|i: int|
                    0 <= i < self.entries@.len() && self.entries@[i].receive_status
                        && self.entries@[i].src_network@ == key.0 && self.entries@[i].conn_sn
                        == key.1;
                if i < n {
                    assert(pre.entries@[i] == self.entries@[i]);
                    assert(pre@.contains(key));
                }
            }
            assert forall|key: (Seq<char>, u64)|
                pre@.insert((src_network@, conn_sn)).contains(key) implies self@.contains(
                key,
            ) by {
                if key == (src_network@, conn_sn) {
                    assert(self.entries@[n].receive_status && self.entries@[n].src_network@
                        == key.0 && self.entries@[n].conn_sn == key.1);
                } else {
                    let i = choose|i: int|
                        0 <= i < pre.entries@.len() && pre.entries@[i].receive_status
                            && pre.entries@[i].src_network@ == key.0 && pre.entries@[i].conn_sn
                            == key.1;
                    assert(self.entries@[i] == pre.entries@[i]);
                }
            }
            assert(self@ =~= pre@.insert((src_network@, conn_sn)));
        }
    }
}

} // verus!
