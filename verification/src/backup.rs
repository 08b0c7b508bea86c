//! The durable, append-only, per-participant recovery store: a one-time
//! replay of everything an earlier session wrote, then ongoing appends that
//! never touch previously written bytes. Opening and syncing the underlying
//! file is the runtime's job; the store itself is the logic over its bytes.

use vstd::prelude::*;

verus! {

/// One session's view of the participant's recovery store: the bytes that
/// were already durable when the session opened it, and the bytes this
/// session has appended since.
#[derive(Debug)]
pub struct BackupStore {
    pub initial: Vec<u8>,
    pub appended: Vec<u8>,
    pub replayed: bool,
}

impl BackupStore {
    /// Everything durable so far: the bytes found at open, with this
    /// session's appends after them, in append order.
    pub open spec fn durable(self) -> Seq<u8> {
        self.initial@ + self.appended@
    }

    /// Opens the store on the bytes an earlier session left behind; an
    /// absent store is treated as empty. Replay has not happened yet and
    /// nothing has been appended.
    pub fn open(existing: Option<Vec<u8>>) -> (r: BackupStore)
        ensures
            existing matches Some(bytes) ==> r.initial@ == bytes@,
            existing is None ==> r.initial@ == Seq::<u8>::empty(),
            r.appended@.len() == 0,
            !r.replayed,
    {
        let initial = match existing {
            Some(bytes) => bytes,
            None => Vec::new(),
        };
        BackupStore { initial, appended: Vec::new(), replayed: false }
    }

    /// The one-time replay: hands out every byte the store held when it was
    /// opened, in order and unmodified. It precedes the first append of the
    /// session and cannot be repeated.
    pub fn replay(&mut self) -> (r: Vec<u8>)
        requires
            !old(self).replayed,
            old(self).appended@.len() == 0,
        ensures
            r@ == old(self).initial@,
            final(self).replayed,
            final(self).initial@ == old(self).initial@,
            final(self).appended@ == old(self).appended@,
    {
        self.replayed = true;
        vstd::slice::slice_to_vec(self.initial.as_slice())
    }

    /// Appends bytes after everything written so far: the previously
    /// durable bytes stay untouched as a prefix, and the new bytes follow
    /// them. Appending only starts once replay has happened.
    pub fn append(&mut self, data: &[u8])
        requires
            old(self).replayed,
        ensures
            final(self).initial@ == old(self).initial@,
            final(self).appended@ == old(self).appended@ + data@,
            final(self).replayed,
            final(self).durable() == old(self).durable() + data@,
    {
        proof {
            assert(self.appended@ =~= old(self).appended@ + data@.subrange(0, 0));
        }
        let mut i: usize = 0;
        while i < data.len()
            invariant
                0 <= i <= data@.len(),
                self.initial@ == old(self).initial@,
                self.replayed == old(self).replayed,
                self.appended@ == old(self).appended@ + data@.subrange(0, i as int),
            decreases data@.len() - i,
        {
            self.appended.push(data[i]);
            proof {
                assert(self.appended@ =~= old(self).appended@ + data@.subrange(0, i + 1));
            }
            i += 1;
        }
        proof {
            assert(self.appended@ =~= old(self).appended@ + data@);
            assert(self.initial@ + self.appended@ =~= (old(self).initial@ + old(self).appended@)
                + data@);
        }
    }
}

/// Law: within one session nothing ever overwrites earlier bytes. The bytes
/// that were durable at open stay as the prefix of the durable contents, and
/// this session's appends follow them in order; a later session that opens
/// the store on these durable contents therefore replays exactly them.
pub proof fn lemma_durable_preserves_appends(s: BackupStore)
    ensures
        s.durable().len() == s.initial@.len() + s.appended@.len(),
        s.durable().subrange(0, s.initial@.len() as int) == s.initial@,
        s.durable().subrange(s.initial@.len() as int, s.durable().len() as int) == s.appended@,
{
    assert(s.durable().subrange(0, s.initial@.len() as int) =~= s.initial@);
    assert(s.durable().subrange(s.initial@.len() as int, s.durable().len() as int)
        =~= s.appended@);
}

} // verus!
