//! Per-participant signing, per-signature verification, and the
//! quorum-threshold completeness check for aggregated multisignatures.

use vstd::prelude::*;

use crate::multisig::{multi_entries, multi_insert, multi_with_size, occupied_count, sig_set_model,
    PartialMultisignature};
use crate::signature::Signature;

verus! {

/// Number of signatures required before a multisignature is complete:
/// `floor(2 * count / 3) + 1`, which tolerates up to
/// `floor((count - 1) / 3)` faulty participants.
pub open spec fn quorum_spec(count: nat) -> nat {
    2 * count / 3 + 1
}

/// A stored signature `(sig_msg, sig_index)` passes verification against a
/// message and a claimed signer exactly when its embedded index equals the
/// claimed one and its embedded message equals the given one byte for byte.
pub open spec fn sig_matches(msg: Seq<u8>, claimed: int, sig_msg: Seq<u8>, sig_index: int) -> bool {
    sig_index == claimed && sig_msg == msg
}

/// A multisignature is complete for `msg` under a scheme of `count`
/// participants when at least a quorum of slots is occupied and every
/// occupied slot verifies against `msg` and its own slot index.
pub open spec fn multi_complete_spec(
    msg: Seq<u8>,
    model: Seq<Option<(Seq<u8>, u64)>>,
    count: nat,
) -> bool {
    &&& occupied_count(model) >= quorum_spec(count)
    &&& forall|i: int|
        0 <= i < model.len() ==> ((#[trigger] model[i]) matches Some(e) ==> sig_matches(
            msg,
            i,
            e.0,
            e.1 as int,
        ))
}

/// Law: a multisignature whose occupied-slot count is below the quorum is
/// never complete, regardless of which signatures its slots hold.
pub proof fn lemma_below_quorum_never_complete(
    msg: Seq<u8>,
    model: Seq<Option<(Seq<u8>, u64)>>,
    count: nat,
)
    requires
        occupied_count(model) < quorum_spec(count),
    ensures
        !multi_complete_spec(msg, model, count),
{
}

/// Byte-for-byte comparison of two byte strings.
pub fn bytes_eq(a: &[u8], b: &[u8]) -> (r: bool)
    ensures
        r == (a@ == b@),
{
    if a.len() != b.len() {
        return false;
    }
    let mut i: usize = 0;
    while i < a.len()
        invariant
            0 <= i <= a@.len(),
            a@.len() == b@.len(),
            forall|j: int| 0 <= j < i ==> a@[j] == b@[j],
        decreases a@.len() - i,
    {
        if a[i] != b[i] {
            return false;
        }
        i += 1;
    }
    proof {
        assert(a@ =~= b@);
    }
    true
}

/// The local participant's signing and verification scheme, together with
/// the session-wide participant count it aggregates against.
#[derive(Clone, Copy, Debug)]
pub struct SimpleKeychain {
    pub count: usize,
    pub index: usize,
}

impl SimpleKeychain {
    pub fn new(count: usize, index: usize) -> (r: SimpleKeychain)
        ensures
            r.count == count,
            r.index == index,
    {
        SimpleKeychain { count, index }
    }

    /// The local participant's own index.
    pub fn index(&self) -> (r: usize)
        ensures
            r == self.index,
    {
        self.index
    }

    /// The total number of participants in the session.
    pub fn node_count(&self) -> (r: usize)
        ensures
            r == self.count,
    {
        self.count
    }

    /// The quorum threshold for this session's participant count.
    pub fn quorum(&self) -> (r: usize)
        ensures
            r == quorum_spec(self.count as nat),
    {
        let n = self.count;
        let wide: u128 = 2 * (n as u128) / 3 + 1;
        proof {
            assert(2 * (n as int) / 3 + 1 <= usize::MAX as int) by (nonlinear_arith)
                requires
                    n as int <= usize::MAX as int,
                    usize::MAX as int >= 3,
            ;
        }
        wide as usize
    }

    /// Tags `msg` with the local participant's index.
    pub fn sign(&self, msg: &[u8]) -> (r: Signature)
        ensures
            r.msg@ == msg@,
            r.index == self.index,
    {
        Signature::new(vstd::slice::slice_to_vec(msg), self.index)
    }

    /// True exactly when the signature's embedded signer index equals
    /// `index` and its embedded message equals `msg` byte for byte.
    pub fn verify(&self, msg: &[u8], sgn: &Signature, index: usize) -> (r: bool)
        ensures
            r == sig_matches(msg@, index as int, sgn.msg@, sgn.index as int),
    {
        index == sgn.index && bytes_eq(msg, sgn.msg.as_slice())
    }

    /// A fresh multisignature of capacity `count` holding exactly the one
    /// given signature, at the given signer's slot.
    pub fn bootstrap_multi(&self, signature: &Signature, index: usize) -> (r: PartialMultisignature)
        requires
            index < self.count,
        ensures
            sig_set_model(r).len() == self.count,
            sig_set_model(r)[index as int] == Some((signature.msg@, signature.index as u64)),
            forall|i: int| 0 <= i < self.count && i != index ==> sig_set_model(r)[i] is None,
    {
        let mut multi = multi_with_size(self.count);
        multi_insert(&mut multi, signature, index);
        multi
    }

    /// Counts the occupied slots; below the quorum the answer is `false`
    /// without looking further, otherwise every occupied slot's signature is
    /// verified against `msg` and its own slot index.
    pub fn is_complete(&self, msg: &[u8], partial: &PartialMultisignature) -> (r: bool)
        ensures
            r == multi_complete_spec(msg@, sig_set_model(*partial), self.count as nat),
    {
        let ghost model = sig_set_model(*partial);
        let entries = multi_entries(partial);
        let signature_count = entries.len();
        if signature_count < self.quorum() {
            return false;
        }
        let mut k: usize = 0;
        let mut all_ok: bool = true;
        while k < entries.len()
            invariant
                0 <= k <= entries@.len(),
                entries@.len() == occupied_count(model),
                forall|k2: int|
                    0 <= k2 < entries@.len() ==> entries@[k2].0 < model.len() && model[entries@[k2].0 as int]
                        == Some((entries@[k2].1.0@, entries@[k2].1.1)),
                forall|i: int|
                    0 <= i < model.len() && model[i] is Some ==> exists|k2: int|
                        0 <= k2 < entries@.len() && entries@[k2].0 == i,
                all_ok == (forall|k2: int|
                    0 <= k2 < k ==> sig_matches(
                        msg@,
                        entries@[k2].0 as int,
                        entries@[k2].1.0@,
                        entries@[k2].1.1 as int,
                    )),
            decreases entries@.len() - k,
        {
            let slot = entries[k].0;
            let ok = entries[k].1.1 == (slot as u64) && bytes_eq(msg, entries[k].1.0.as_slice());
            all_ok = all_ok && ok;
            k += 1;
        }
        proof {
            if all_ok {
                assert forall|i: int|
                    0 <= i < model.len() implies ((#[trigger] model[i]) matches Some(e)
                    ==> sig_matches(msg@, i, e.0, e.1 as int)) by {
                    if model[i] is Some {
                        let k2 = choose|k2: int|
                            0 <= k2 < entries@.len() && entries@[k2].0 == i;
                        assert(model[entries@[k2].0 as int] == Some((
                            entries@[k2].1.0@,
                            entries@[k2].1.1,
                        )));
                    }
                }
            } else {
                let k2 = choose|k2: int|
                    0 <= k2 < entries@.len() && !sig_matches(
                        msg@,
                        entries@[k2].0 as int,
                        entries@[k2].1.0@,
                        entries@[k2].1.1 as int,
                    );
                assert(model[entries@[k2].0 as int] == Some((entries@[k2].1.0@, entries@[k2].1.1)));
            }
        }
        all_ok
    }
}

} // verus!
