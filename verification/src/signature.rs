use vstd::prelude::*;

verus! {

/// A placeholder authenticity tag: a copy of the signed message together
/// with the signer's participant index. A production deployment must
/// substitute real asymmetric signing; the quorum logic in `keychain` is
/// scheme-agnostic and stays unchanged.
#[derive(Clone, Debug, PartialEq, Eq, Hash)]
pub struct Signature {
    pub msg: Vec<u8>,
    pub index: usize,
}

impl Signature {
    pub fn new(msg: Vec<u8>, index: usize) -> (r: Signature)
        ensures
            r.msg@ == msg@,
            r.index == index,
    {
        Signature { msg, index }
    }

    /// The message bytes this tag was made over.
    pub fn msg(&self) -> (r: &Vec<u8>)
        ensures
            r@ == self.msg@,
    {
        &self.msg
    }

    /// The participant index embedded in the tag.
    pub fn index(&self) -> (r: usize)
        ensures
            r == self.index,
    {
        self.index
    }
}

} // verus!
