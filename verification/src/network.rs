//! Point-to-point datagram addressing: the static participant-index-to-
//! endpoint table built at startup, and the choice of delivery targets for
//! an outbound datagram. The socket itself (binding, the receive loop, the
//! actual sends) is runtime plumbing outside the library; it is handed the
//! target endpoints chosen here.

use vstd::prelude::*;

verus! {

/// The base of the deterministic per-participant port range: participant
/// `i` listens on `PEER_PORT_BASE + i`.
pub const PEER_PORT_BASE: u16 = 9900;

/// Upper bound on one binary-encoded protocol datagram; the receive buffer
/// is exactly this large, so anything bigger arrives truncated, fails to
/// decode, and is dropped without disturbing later receives.
pub const MAX_DATAGRAM_SIZE: usize = 65536;

/// Where an outbound datagram is addressed: every other participant, or one
/// participant by index.
#[derive(Clone, Copy, Debug, PartialEq, Eq, Structural)]
pub enum Recipient {
    Everyone,
    Node(usize),
}

/// The datagram transport's addressing state: the local participant's index
/// and the endpoint table, one slot per participant index. The table is
/// built fully at startup and read-only afterwards.
#[derive(Debug)]
pub struct SimpleNetwork {
    pub index: usize,
    pub addresses: Vec<Option<String>>,
}

impl SimpleNetwork {
    pub fn new(index: usize) -> (r: SimpleNetwork)
        ensures
            r.index == index,
            r.addresses@.len() == 0,
    {
        SimpleNetwork { index, addresses: Vec::new() }
    }

    /// Registers the endpoint for one participant index, growing the table
    /// as needed and leaving every other entry as it was.
    pub fn add_address(&mut self, idx: usize, address: String)
        requires
            idx < usize::MAX,
        ensures
            final(self).index == old(self).index,
            final(self).addresses@.len() == if idx + 1 > old(self).addresses@.len() {
                idx + 1
            } else {
                old(self).addresses@.len() as int
            },
            final(self).addresses@[idx as int] matches Some(a) && a@ == address@,
            forall|j: int|
                0 <= j < final(self).addresses@.len() && j != idx ==> final(self).addresses@[j]
                    == if j < old(self).addresses@.len() {
                    old(self).addresses@[j]
                } else {
                    Option::<String>::None
                },
    {
        while self.addresses.len() <= idx
            invariant
                self.index == old(self).index,
                self.addresses@.len() >= old(self).addresses@.len(),
                self.addresses@.len() > old(self).addresses@.len() ==> self.addresses@.len() <= idx
                    + 1,
                idx < usize::MAX,
                forall|j: int|
                    0 <= j < self.addresses@.len() ==> self.addresses@[j] == if j < old(
                        self,
                    ).addresses@.len() {
                        old(self).addresses@[j]
                    } else {
                        Option::<String>::None
                    },
            decreases idx + 1 - self.addresses@.len(),
        {
            self.addresses.push(None);
        }
        self.addresses.set(idx, Some(address));
    }

    /// Registers the given endpoints for participant indices `0` up to
    /// `endpoints.len()`, in order, on a freshly built table: the startup
    /// step that must complete before any receive loop starts.
    pub fn populate(&mut self, endpoints: &Vec<String>)
        requires
            old(self).addresses@.len() == 0,
        ensures
            final(self).index == old(self).index,
            final(self).addresses@.len() == endpoints@.len(),
            forall|i: int|
                0 <= i < endpoints@.len() ==> ((#[trigger] final(self).addresses@[i]) matches Some(
                    a,
                ) && a@ == endpoints@[i]@),
    {
        let mut i: usize = 0;
        while i < endpoints.len()
            invariant
                0 <= i <= endpoints@.len(),
                self.index == old(self).index,
                self.addresses@.len() == i,
                forall|j: int|
                    0 <= j < i ==> ((#[trigger] self.addresses@[j]) matches Some(a) && a@
                        == endpoints@[j]@),
            decreases endpoints@.len() - i,
        {
            self.add_address(i, endpoints[i].clone());
            i += 1;
        }
    }

    /// What an endpoint lookup for participant `idx` finds in this table.
    pub open spec fn lookup_spec(self, idx: int) -> Option<String> {
        if 0 <= idx < self.addresses@.len() {
            self.addresses@[idx]
        } else {
            Option::None
        }
    }

    /// Looks one participant's endpoint up; `None` when no endpoint was
    /// ever registered for that index.
    pub fn get_address(&self, idx: usize) -> (r: Option<&String>)
        ensures
            self.lookup_spec(idx as int) matches Some(b) ==> (r matches Some(a) && a@ == b@),
            self.lookup_spec(idx as int) is None ==> r is None,
    {
        if idx < self.addresses.len() {
            match &self.addresses[idx] {
                Some(a) => Some(a),
                None => None,
            }
        } else {
            None
        }
    }

    /// Chooses the delivery targets for one outbound datagram: for
    /// `Everyone`, every participant with a registered endpoint except the
    /// local one; for a single recipient, that participant alone if its
    /// endpoint is registered, and nobody otherwise (a no-op, never an
    /// error). Targets come out in ascending index order.
    pub fn send_targets(&self, recipient: &Recipient) -> (r: Vec<usize>)
        ensures
            forall|k: int|
                0 <= k < r@.len() ==> r@[k] < self.addresses@.len() && self.addresses@[
                    r@[k] as int
                ] is Some,
            forall|k1: int, k2: int| 0 <= k1 < k2 < r@.len() ==> r@[k1] < r@[k2],
            recipient is Everyone ==> {
                &&& forall|k: int| 0 <= k < r@.len() ==> r@[k] != self.index
                &&& forall|j: int|
                    0 <= j < self.addresses@.len() && self.addresses@[j] is Some && j
                        != self.index ==> exists|k: int| 0 <= k < r@.len() && r@[k] == j
            },
            recipient matches Recipient::Node(n) ==> {
                &&& n < self.addresses@.len() && self.addresses@[n as int] is Some ==> r@
                    =~= seq![*n]
                &&& n >= self.addresses@.len() || self.addresses@[n as int] is None ==> r@.len()
                    == 0
            },
    {
        let mut targets: Vec<usize> = Vec::new();
        match recipient {
            Recipient::Everyone => {
                let mut j: usize = 0;
                while j < self.addresses.len()
                    invariant
                        0 <= j <= self.addresses@.len(),
                        forall|k: int|
                            0 <= k < targets@.len() ==> targets@[k] < j && self.addresses@[
                                targets@[k] as int
                            ] is Some && targets@[k] != self.index,
                        forall|k1: int, k2: int|
                            0 <= k1 < k2 < targets@.len() ==> targets@[k1] < targets@[k2],
                        forall|i: int|
                            0 <= i < j && self.addresses@[i] is Some && i != self.index
                                ==> exists|k: int| 0 <= k < targets@.len() && targets@[k] == i,
                    decreases self.addresses@.len() - j,
                {
                    let ghost prev = targets@;
                    if j != self.index && self.addresses[j].is_some() {
                        targets.push(j);
                        proof {
                            assert forall|i: int|
                                0 <= i < j + 1 && self.addresses@[i] is Some && i
                                    != self.index implies exists|k: int|
                                0 <= k < targets@.len() && targets@[k] == i by {
                                if i == j {
                                    assert(targets@[prev.len() as int] == i);
                                } else {
                                    let k0 = choose|k: int| 0 <= k < prev.len() && prev[k] == i;
                                    assert(targets@[k0] == i);
                                }
                            }
                        }
                    }
                    j += 1;
                }
            },
            Recipient::Node(n) => {
                if *n < self.addresses.len() && self.addresses[*n].is_some() {
                    targets.push(*n);
                }
            },
        }
        targets
    }
}

/// The deterministic endpoint port of participant `index`: the fixed base
/// port plus the index, resolvable by every participant from index alone.
pub fn peer_port(index: usize) -> (r: u16)
    requires
        PEER_PORT_BASE + index <= u16::MAX,
    ensures
        r == PEER_PORT_BASE + index,
{
    PEER_PORT_BASE + (index as u16)
}

/// True when the table holds a registered endpoint for every participant
/// index below `n`.
pub open spec fn covers(addresses: Seq<Option<String>>, n: int) -> bool {
    forall|i: int| 0 <= i < n ==> i < addresses.len() && addresses[i] is Some
}

/// Law: once startup has registered an endpoint for every participant index
/// below the participant count, an address lookup succeeds for each of them.
pub proof fn lemma_startup_lookups_succeed(net: SimpleNetwork, n: int)
    requires
        covers(net.addresses@, n),
    ensures
        forall|i: int| 0 <= i < n ==> (#[trigger] net.lookup_spec(i)) is Some,
{
}

} // verus!
