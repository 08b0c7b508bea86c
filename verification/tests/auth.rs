use aleph_bft::{NodeCount, NodeIndex, NodeMap};

use aleph_ordering::keychain::SimpleKeychain;
use aleph_ordering::multisig::PartialMultisignature;
use aleph_ordering::signature::Signature;

fn fresh_set(count: usize) -> PartialMultisignature {
    NodeMap::with_size(NodeCount(count))
}

#[test]
fn quorum_formula_exact_values() {
    assert_eq!(SimpleKeychain::new(1, 0).quorum(), 1);
    assert_eq!(SimpleKeychain::new(2, 0).quorum(), 2);
    assert_eq!(SimpleKeychain::new(3, 0).quorum(), 3);
    assert_eq!(SimpleKeychain::new(4, 0).quorum(), 3);
    assert_eq!(SimpleKeychain::new(5, 0).quorum(), 4);
    assert_eq!(SimpleKeychain::new(6, 0).quorum(), 5);
    assert_eq!(SimpleKeychain::new(7, 0).quorum(), 5);
    assert_eq!(SimpleKeychain::new(100, 0).quorum(), 67);
}

#[test]
fn sign_embeds_message_and_index() {
    let kc = SimpleKeychain::new(4, 2);
    let sig = kc.sign(b"hello");
    assert_eq!(sig.msg(), &b"hello".to_vec());
    assert_eq!(sig.index(), 2);
}

#[test]
fn verify_accepts_matching_signature() {
    let kc = SimpleKeychain::new(4, 2);
    let sig = kc.sign(b"hello");
    assert!(kc.verify(b"hello", &sig, 2));
}

#[test]
fn verify_rejects_wrong_index_or_message() {
    let kc = SimpleKeychain::new(4, 2);
    let sig = kc.sign(b"hello");
    assert!(!kc.verify(b"hello", &sig, 3));
    assert!(!kc.verify(b"other", &sig, 2));
    assert!(!kc.verify(b"hell", &sig, 2));
}

#[test]
fn bootstrap_multi_alone_completes_solo_session() {
    let kc = SimpleKeychain::new(1, 0);
    assert_eq!(kc.quorum(), 1);
    let sig = kc.sign(b"solo");
    let multi = kc.bootstrap_multi(&sig, 0);
    assert!(kc.is_complete(b"solo", &multi));
}

#[test]
fn bootstrap_multi_is_below_quorum_for_three() {
    let kc = SimpleKeychain::new(3, 1);
    let sig = kc.sign(b"msg");
    let multi = kc.bootstrap_multi(&sig, 1);
    assert!(!kc.is_complete(b"msg", &multi));
}

#[test]
fn below_quorum_is_incomplete_even_if_all_valid() {
    let kc = SimpleKeychain::new(3, 0);
    let msg = b"payload".to_vec();
    let mut set = fresh_set(3);
    set.insert(NodeIndex(0), (msg.clone(), 0));
    set.insert(NodeIndex(1), (msg.clone(), 1));
    assert!(!kc.is_complete(&msg, &set));
}

#[test]
fn quorum_of_valid_signatures_is_complete() {
    let kc = SimpleKeychain::new(3, 0);
    let msg = b"payload".to_vec();
    let mut set = fresh_set(3);
    set.insert(NodeIndex(0), (msg.clone(), 0));
    set.insert(NodeIndex(1), (msg.clone(), 1));
    set.insert(NodeIndex(2), (msg.clone(), 2));
    assert!(kc.is_complete(&msg, &set));
}

#[test]
fn mismatched_signer_index_in_one_slot_is_incomplete() {
    let kc = SimpleKeychain::new(3, 0);
    let msg = b"payload".to_vec();
    let mut set = fresh_set(3);
    set.insert(NodeIndex(0), (msg.clone(), 0));
    set.insert(NodeIndex(1), (msg.clone(), 1));
    // Exactly quorum slots occupied, but slot 2 stores a signature whose
    // embedded signer index says 1.
    set.insert(NodeIndex(2), (msg.clone(), 1));
    assert!(!kc.is_complete(&msg, &set));
}

#[test]
fn wrong_message_in_one_slot_is_incomplete() {
    let kc = SimpleKeychain::new(3, 0);
    let msg = b"payload".to_vec();
    let mut set = fresh_set(3);
    set.insert(NodeIndex(0), (msg.clone(), 0));
    set.insert(NodeIndex(1), (b"forged".to_vec(), 1));
    set.insert(NodeIndex(2), (msg.clone(), 2));
    assert!(!kc.is_complete(&msg, &set));
}

#[test]
fn signature_accessors_round_trip() {
    let sig = Signature::new(vec![1, 2, 3], 7);
    assert_eq!(sig.msg(), &vec![1, 2, 3]);
    assert_eq!(sig.index(), 7);
}
