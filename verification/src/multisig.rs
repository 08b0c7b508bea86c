//! The aggregate multisignature container.
//!
//! The container itself is `aleph_bft`'s `NodeMap`: a fixed-capacity map from
//! participant index to at most one stored signature per slot. Its contents
//! are given a name, `sig_set_model`, as a sequence of optional
//! `(message bytes, signer index)` pairs, one slot per participant, and every
//! method the harness calls is wrapped with a contract over that name.

use vstd::prelude::*;

use crate::signature::Signature;

verus! {

#[verifier::external_type_specification]
#[verifier::external_body]
#[verifier::reject_recursive_types(T)]
pub struct ExNodeMap<T>(aleph_bft::NodeMap<T>);

/// An aggregate of individual signatures keyed by signer index. Each stored
/// item is the pair of message bytes and embedded signer index that a
/// `Signature` carries, in the plain form the container can encode.
pub type PartialMultisignature = aleph_bft::SignatureSet<(Vec<u8>, u64)>;

/// The slots of a multisignature: one entry per participant index, holding
/// the stored signature's message bytes and embedded signer index, if any.
pub uninterp spec fn sig_set_model(s: aleph_bft::SignatureSet<(Vec<u8>, u64)>) -> Seq<Option<(Seq<u8>, u64)>>;

/// How many slots of a multisignature hold a signature.
pub open spec fn occupied_count(model: Seq<Option<(Seq<u8>, u64)>>) -> nat
    decreases model.len(),
{
    if model.len() == 0 {
        0
    } else {
        occupied_count(model.drop_last()) + (if model.last() is Some {
            1nat
        } else {
            0nat
        })
    }
}

/// Relies on `NodeMap::with_size`: a fresh map of `count` slots, all empty.
#[verifier::external_body]
pub(crate) fn multi_with_size(count: usize) -> (r: PartialMultisignature)
    ensures
        sig_set_model(r).len() == count,
        forall|i: int| 0 <= i < count ==> sig_set_model(r)[i] is None,
{
    aleph_bft::SignatureSet::with_size(aleph_bft::NodeCount(count))
}

/// Relies on `NodeMap::insert`: stores the value at the given slot and leaves
/// every other slot as it was. An out-of-range slot makes `NodeMap` panic, so
/// it is excluded here.
#[verifier::external_body]
pub(crate) fn multi_insert(s: &mut PartialMultisignature, sig: &Signature, index: usize)
    requires
        index < sig_set_model(*old(s)).len(),
    ensures
        sig_set_model(*final(s)) == sig_set_model(*old(s)).update(
            index as int,
            Some((sig.msg@, sig.index as u64)),
        ),
{
    s.insert(aleph_bft::NodeIndex(index), (sig.msg.clone(), sig.index as u64));
}

/// Relies on `NodeMap::iter`: yields exactly the occupied slots, each once,
/// in ascending slot order.
#[verifier::external_body]
pub(crate) fn multi_entries(s: &PartialMultisignature) -> (r: Vec<(usize, (Vec<u8>, u64))>)
    ensures
        r@.len() == occupied_count(sig_set_model(*s)),
        forall|k: int|
            0 <= k < r@.len() ==> r@[k].0 < sig_set_model(*s).len() && sig_set_model(*s)[r@[k].0 as int]
                == Some((r@[k].1.0@, r@[k].1.1)),
        forall|k1: int, k2: int| 0 <= k1 < k2 < r@.len() ==> r@[k1].0 < r@[k2].0,
        forall|i: int|
            0 <= i < sig_set_model(*s).len() && sig_set_model(*s)[i] is Some ==> exists|k: int|
                0 <= k < r@.len() && r@[k].0 == i,
{
    s.iter().map(|(i, t): (aleph_bft::NodeIndex, &(Vec<u8>, u64))| (i.0, t.clone())).collect()
}

} // verus!
