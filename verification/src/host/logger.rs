//! Playback of recorded telemetry logs.

use vstd::prelude::*;

verus! {

/// A recorded log and the position of the next unread record.
pub struct LogPlayback {
    data: Vec<u8>,
    cursor: usize,
}

impl LogPlayback {
    /// The whole log.
    pub closed spec fn data(&self) -> Seq<u8> {
        self.data@
    }

    /// The position of the next unread byte.
    pub closed spec fn cursor(&self) -> nat {
        self.cursor as nat
    }

    /// Starts playback of a log read into memory.
    pub fn from_data(data: Vec<u8>) -> (p: Self)
        ensures
            p.data() == data@,
            p.cursor() == 0,
    {
        LogPlayback { data, cursor: 0 }
    }

    /// The bytes from the next record to the end of the log, or `None` when
    /// playback has reached the end.
    pub fn unread(&self) -> (r: Option<&[u8]>)
        ensures
            self.cursor() >= self.data().len() ==> r is None,
            self.cursor() < self.data().len() ==> (r matches Some(rest) && rest@ == self.data().subrange(
                self.cursor() as int,
                self.data().len() as int,
            )),
    {
        if self.cursor >= self.data.len() {
            return None;
        }
        Some(&self.data.as_slice()[self.cursor..self.data.len()])
    }

    /// Moves past a record of `used` bytes that was decoded from `unread`.
    pub fn advance(&mut self, used: usize)
        requires
            old(self).cursor() + used <= old(self).data().len(),
        ensures
            final(self).data() == old(self).data(),
            final(self).cursor() == old(self).cursor() + used,
    {
        let len = self.data.len();
        assert(self.cursor + used <= len);
        self.cursor = self.cursor + used;
    }
}

} // verus!
