//! The participant's sequential, single-pass source of proposed items.

use vstd::prelude::*;

verus! {

/// A forward-only cursor over the participant's ordered item list. Each item
/// handed out is tagged with the owning participant's index; once the cursor
/// reaches the end, exhaustion is terminal and stable.
#[derive(Clone, Debug)]
pub struct SimpleDataProvider {
    pub index: usize,
    pub position: usize,
    pub data: Vec<String>,
}

impl SimpleDataProvider {
    pub fn new(index: usize, data: Vec<String>) -> (r: SimpleDataProvider)
        ensures
            r.index == index,
            r.position == 0,
            r.data@ == data@,
    {
        SimpleDataProvider { index, position: 0, data }
    }

    /// The next item tagged with this participant's index, or `None` once
    /// the cursor has passed the end of the list. Exhaustion is stable:
    /// after it, the provider never changes again.
    pub fn get_data(&mut self) -> (r: Option<(usize, String)>)
        ensures
            old(self).position < old(self).data@.len() ==> {
                &&& r matches Some(p) && p.0 == old(self).index && p.1@ == old(self).data@[
                    old(self).position as int
                ]@
                &&& final(self).position == old(self).position + 1
                &&& final(self).data@ == old(self).data@
                &&& final(self).index == old(self).index
            },
            old(self).position >= old(self).data@.len() ==> r is None && *final(self) == *old(
                self,
            ),
    {
        if self.position >= self.data.len() {
            None
        } else {
            let current_data = self.data[self.position].clone();
            self.position = self.position + 1;
            Some((self.index, current_data))
        }
    }
}

} // verus!
