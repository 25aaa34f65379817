//! A rolling log of the most recent states: pushes append at the back and,
//! once the log has grown past its bound, drop the oldest entry.

use vstd::prelude::*;

use std::collections::VecDeque;

verus! {

/// A bounded history of states.  `len` is the bound the history was built
/// with; the log keeps at most `len + 1` entries, dropping the oldest
/// when a push would exceed that.
pub struct RollingHistory<T> {
    pub log: VecDeque<T>,
    pub len: usize,
}

impl<T> RollingHistory<T> {
    /// An empty history with the given bound.
    pub fn build(length: usize) -> (r: Self)
        ensures
            r.log@ == Seq::<T>::empty(),
            r.len == length,
    {
        Self { log: VecDeque::new(), len: length }
    }

    /// Append a state.  While the log is within its bound the state is
    /// appended and the call reports `Some`; once a push finds the log
    /// already past the bound, the oldest entry is dropped alongside the
    /// append and the call reports `None`.
    pub fn push(&mut self, state: T) -> (r: Option<()>)
        ensures
            final(self).len == old(self).len,
            old(self).log@.len() > old(self).len ==> r is None && final(self).log@ == old(
                self,
            ).log@.drop_first().push(state),
            old(self).log@.len() <= old(self).len ==> r == Some(()) && final(self).log@ == old(
                self,
            ).log@.push(state),
    {
        if self.log.len() > self.len {
            self.log.pop_front();
            self.log.push_back(state);
            return None;
        }
        self.log.push_back(state);
        Some(())
    }
}

} // verus!
