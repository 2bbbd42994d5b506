use vstd::prelude::*;

use crate::errors::ErrorCode;

verus! {

/// The two components of the cost of sending to one destination network.
#[derive(Clone, Copy, PartialEq, Eq, Structural, Debug)]
pub struct FeeTerms {
    /// Base cost of a send to the network.
    pub message_fee: u64,
    /// Additional cost when a response is requested.
    pub response_fee: u64,
}

/// One stored fee entry: the terms for one destination network.
///
/// Entries are created and overwritten only through the admin-gated set-fee
/// operation; there is no delete operation. The absence of an entry is a
/// distinct state from a zero-fee entry.
#[derive(Clone, Debug)]
pub struct FeesState {
    /// The destination network the entry prices.
    pub network: String,
    /// Base cost of a send to the network.
    pub message_fees: u64,
    /// Additional cost when a response is requested.
    pub response_fees: u64,
}

impl FeesState {
    /// Builds the fee entry for one destination network.
    pub fn new(network: String, message_fees: u64, response_fees: u64) -> (entry: FeesState)
        ensures
            entry.network@ == network@,
            entry.message_fees == message_fees,
            entry.response_fees == response_fees,
    {
        FeesState { network, message_fees, response_fees }
    }

    /// The entry's terms, as the fee table's mathematical view records them.
    pub open spec fn terms(self) -> FeeTerms {
        FeeTerms { message_fee: self.message_fees, response_fee: self.response_fees }
    }

    /// The full cost under this entry: the message fee, plus the response fee
    /// when a response is requested.
    pub fn total_fees(&self, response: bool) -> (total: u64)
        requires
            response ==> self.message_fees + self.response_fees <= u64::MAX,
        ensures
            total == if response {
                self.message_fees + self.response_fees
            } else {
                self.message_fees as int
            },
    {
        if response {
            self.message_fees + self.response_fees
        } else {
            self.message_fees
        }
    }
}

/// The per-destination fee table: admin-controlled pricing, one entry per
/// destination network.
///
/// Its mathematical view is a map from the network identifier (a character
/// sequence) to the fee terms stored for it. Well-formedness (`wf`) says the
/// stored entries carry pairwise distinct network identifiers, so the view
/// determines every lookup.
pub struct FeeSchedule {
    /// The stored entries, at most one per network identifier.
    pub entries: Vec<FeesState>,
}

impl FeeSchedule {
    /// There is an entry for `network`.
    pub open spec fn has(self, network: Seq<char>) -> bool {
        exists|i: int|
            0 <= i < self.entries@.len() && self.entries@[i].network@ == network
    }

    /// The position of the entry for `network`, when one exists.
    pub open spec fn index_of(self, network: Seq<char>) -> int {
        choose|i: int|
            0 <= i < self.entries@.len() && self.entries@[i].network@ == network
    }

    /// Entries carry pairwise distinct network identifiers.
    pub open spec fn wf(self) -> bool {
        forall|i: int, j: int|
            0 <= i < j < self.entries@.len() ==> self.entries@[i].network@
                != self.entries@[j].network@
    }

    /// An empty fee table.
    pub fn new() -> (schedule: FeeSchedule)
        ensures
            schedule.wf(),
            schedule@ == Map::<Seq<char>, FeeTerms>::empty(),
            schedule.entries@.len() == 0,
    {
        let schedule = FeeSchedule { entries: Vec::new() };
        proof {
            assert(schedule@ =~= Map::<Seq<char>, FeeTerms>::empty());
        }
        schedule
    }

    /// Creates or overwrites the entry for `network`: afterwards the table's
    /// view is the old view with `network` bound to the given terms.
    #[verifier::loop_isolation(false)]
    pub fn set_entry(&mut self, network: String, message_fee: u64, response_fee: u64)
        requires
            old(self).wf(),
        ensures
            final(self).wf(),
            final(self)@ == old(self)@.insert(network@, (FeeTerms { message_fee, response_fee })),
    {
        let ghost pre = *self;
        let ghost new_terms = FeeTerms { message_fee, response_fee };
        let mut i: usize = 0;
        while i < self.entries.len()
            invariant
                *self == pre,
                pre.wf(),
                i <= self.entries@.len(),
                forall|j: int| 0 <= j < i ==> self.entries@[j].network@ != network@,
            decreases self.entries@.len() - i,
        {
            if self.entries[i].network == network {
                self.entries[i] = FeesState::new(network, message_fee, response_fee);
                proof {
                    lemma_update_is_insert(pre, *self, network@, new_terms, i as int);
                }
                return ;
            }
            i += 1;
        }
        self.entries.push(FeesState::new(network, message_fee, response_fee));
        proof {
            lemma_push_is_insert(pre, *self, network@, new_terms);
        }
    }

    /// Looks the entry for `network` up, or reports that none exists.
    pub fn lookup(&self, network: &String) -> (found: Option<FeeTerms>)
        requires
            self.wf(),
        ensures
            match found {
                Some(terms) => self@.dom().contains(network@) && terms == self@[network@],
                None => !self@.dom().contains(network@),
            },
    {
        let mut i: usize = 0;
        while i < self.entries.len()
            invariant
                self.wf(),
                i <= self.entries@.len(),
                forall|j: int| 0 <= j < i ==> self.entries@[j].network@ != network@,
            decreases self.entries@.len() - i,
        {
            if self.entries[i].network == *network {
                proof {
                    lemma_entry_determines_view(*self, network@, i as int);
                }
                return Some(
                    FeeTerms {
                        message_fee: self.entries[i].message_fees,
                        response_fee: self.entries[i].response_fees,
                    },
                );
            }
            i += 1;
        }
        None
    }
}

impl View for FeeSchedule {
    type V = Map<Seq<char>, FeeTerms>;

    /// The table as a map from network identifier to fee terms.
    open spec fn view(&self) -> Map<Seq<char>, FeeTerms> {
        Map::new(
            |network: Seq<char>| self.has(network),
            |network: Seq<char>| self.entries@[self.index_of(network)].terms(),
        )
    }
}

/// In a well-formed table, an entry at position `i` for `network` is the one
/// the view reads for that key.
proof fn lemma_entry_determines_view(schedule: FeeSchedule, network: Seq<char>, i: int)
    requires
        schedule.wf(),
        0 <= i < schedule.entries@.len(),
        schedule.entries@[i].network@ == network,
    ensures
        schedule.has(network),
        schedule.index_of(network) == i,
        schedule@.dom().contains(network),
        schedule@[network] == schedule.entries@[i].terms(),
{
    assert(schedule.has(network));
    let j = schedule.index_of(network);
    assert(0 <= j < schedule.entries@.len() && schedule.entries@[j].network@ == network);
    if i < j {
        assert(schedule.entries@[i].network@ != schedule.entries@[j].network@);
    } else if j < i {
        assert(schedule.entries@[j].network@ != schedule.entries@[i].network@);
    }
}

/// Overwriting the entry at the position that already carries `network`
/// leaves a well-formed table whose view gained exactly that binding.
proof fn lemma_update_is_insert(
    pre: FeeSchedule,
    post: FeeSchedule,
    network: Seq<char>,
    terms: FeeTerms,
    i: int,
)
    requires
        pre.wf(),
        0 <= i < pre.entries@.len(),
        pre.entries@[i].network@ == network,
        post.entries@.len() == pre.entries@.len(),
        post.entries@[i].network@ == network,
        post.entries@[i].terms() == terms,
        forall|j: int|
            0 <= j < pre.entries@.len() && j != i ==> post.entries@[j] == pre.entries@[j],
    ensures
        post.wf(),
        post@ == pre@.insert(network, terms),
{
    assert forall|p: int, q: int|
        0 <= p < q < post.entries@.len() implies post.entries@[p].network@
        != post.entries@[q].network@ by {
        assert(post.entries@[p].network@ == pre.entries@[p].network@);
        assert(post.entries@[q].network@ == pre.entries@[q].network@);
    }
    assert forall|key: Seq<char>| post.has(key) <==> pre.has(key) by {
        if post.has(key) {
            let w = choose|w: int|
                0 <= w < post.entries@.len() && post.entries@[w].network@ == key;
            assert(pre.entries@[w].network@ == key);
        }
        if pre.has(key) {
            let w = choose|w: int|
                0 <= w < pre.entries@.len() && pre.entries@[w].network@ == key;
            assert(post.entries@[w].network@ == key);
        }
    }
    assert forall|key: Seq<char>| #[trigger] post@.dom().contains(key) implies post@[key]
        == pre@.insert(network, terms)[key] by {
        if key == network {
            lemma_entry_determines_view(post, key, i);
        } else {
            let w = choose|w: int|
                0 <= w < post.entries@.len() && post.entries@[w].network@ == key;
            assert(post.entries@[w] == pre.entries@[w]);
            lemma_entry_determines_view(post, key, w);
            lemma_entry_determines_view(pre, key, w);
        }
    }
    assert(post@ =~= pre@.insert(network, terms));
}

/// Appending an entry for a `network` the table does not price yet leaves a
/// well-formed table whose view gained exactly that binding.
proof fn lemma_push_is_insert(pre: FeeSchedule, post: FeeSchedule, network: Seq<char>, terms: FeeTerms)
    requires
        pre.wf(),
        !pre.has(network),
        post.entries@.len() == pre.entries@.len() + 1,
        post.entries@.last().network@ == network,
        post.entries@.last().terms() == terms,
        forall|j: int| 0 <= j < pre.entries@.len() ==> post.entries@[j] == pre.entries@[j],
    ensures
        post.wf(),
        post@ == pre@.insert(network, terms),
{
    let n = pre.entries@.len() as int;
    assert forall|p: int, q: int|
        0 <= p < q < post.entries@.len() implies post.entries@[p].network@
        != post.entries@[q].network@ by {
        if q < n {
            assert(post.entries@[p] == pre.entries@[p]);
            assert(post.entries@[q] == pre.entries@[q]);
        } else {
            assert(post.entries@[q].network@ == network);
            if post.entries@[p].network@ == network {
                assert(pre.entries@[p].network@ == network);
                assert(pre.has(network));
            }
        }
    }
    assert forall|key: Seq<char>| #[trigger] post@.dom().contains(key) implies pre@.insert(
        network,
        terms,
    ).dom().contains(key) && post@[key] == pre@.insert(network, terms)[key] by {
        if key == network {
            lemma_entry_determines_view(post, key, n);
        } else {
            let w = choose|w: int|
                0 <= w < post.entries@.len() && post.entries@[w].network@ == key;
            assert(w < n);
            assert(post.entries@[w] == pre.entries@[w]);
            lemma_entry_determines_view(post, key, w);
            lemma_entry_determines_view(pre, key, w);
        }
    }
    assert forall|key: Seq<char>|
        pre@.insert(network, terms).dom().contains(key) implies post@.dom().contains(key) by {
        if key == network {
            assert(post.entries@[n].network@ == network);
        } else {
            assert(pre@.dom().contains(key));
            let w = choose|w: int|
                0 <= w < pre.entries@.len() && pre.entries@[w].network@ == key;
            assert(post.entries@[w].network@ == key);
        }
    }
    assert(post@ =~= pre@.insert(network, terms));
}

/// The total cost under the given terms: the message fee alone, or the sum
/// of both terms, failing with `FeeOverflow` instead of wrapping.
pub fn checked_total(terms: FeeTerms, include_response: bool) -> (result: Result<u64, ErrorCode>)
    ensures
        !include_response ==> result == Ok::<u64, ErrorCode>(terms.message_fee),
        include_response && terms.message_fee + terms.response_fee <= u64::MAX ==> (result
            matches Ok(total) && total == terms.message_fee + terms.response_fee),
        include_response && terms.message_fee + terms.response_fee > u64::MAX ==> result
            == Err::<u64, ErrorCode>(ErrorCode::FeeOverflow),
{
    if include_response {
        match terms.message_fee.checked_add(terms.response_fee) {
            Some(total) => Ok(total),
            None => Err(ErrorCode::FeeOverflow),
        }
    } else {
        Ok(terms.message_fee)
    }
}

} // verus!
