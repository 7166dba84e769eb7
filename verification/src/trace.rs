//! The diagnostics trace: a fixed-capacity ring buffer of sequence-numbered,
//! time-stamped messages. Append-only from the orchestrator's point of view;
//! it records decisions and never affects control flow.
use vstd::prelude::*;
use std::collections::VecDeque;
use crate::TRACE_CAPACITY;

verus! {

/// One recorded event.
pub struct TraceEntry {
    /// Position in the whole history of appends (monotonically increasing).
    pub seq: u64,
    /// Milliseconds elapsed since the first entry was recorded.
    pub delta_ms: u128,
    pub message: String,
}

impl Clone for TraceEntry {
    fn clone(&self) -> (r: Self)
        ensures
            r == *self,
    {
        TraceEntry { seq: self.seq, delta_ms: self.delta_ms, message: self.message.clone() }
    }
}

/// The ring buffer. When full, appending drops the oldest entry.
pub struct TraceLog {
    /// Sequence number handed to the most recent entry.
    pub seq: u64,
    /// Epoch time of the first append, the zero point of `delta_ms`.
    pub start_ms: Option<u128>,
    /// Stored entries, oldest first; never longer than `TRACE_CAPACITY`.
    pub entries: VecDeque<TraceEntry>,
}

impl TraceLog {
    pub open spec fn wf(self) -> bool {
        self.entries@.len() <= TRACE_CAPACITY
    }

    pub fn new() -> (r: TraceLog)
        ensures
            r.wf(),
            r.seq == 0,
            r.start_ms is None,
            r.entries@.len() == 0,
    {
        TraceLog { seq: 0, start_ms: None, entries: VecDeque::new() }
    }

    pub fn len(&self) -> (r: usize)
        ensures
            r == self.entries@.len(),
    {
        self.entries.len()
    }

    /// Record one message. Assigns the next sequence number and the elapsed
    /// time since the first entry; evicts the oldest entry when full.
    pub fn append(&mut self, now_ms: u128, message: String)
        requires
            old(self).wf(),
        ensures
            final(self).wf(),
            final(self).seq == (if old(self).seq == u64::MAX {
                u64::MAX
            } else {
                (old(self).seq + 1) as u64
            }),
            final(self).start_ms == Some(
                match old(self).start_ms {
                    Some(s) => s,
                    None => now_ms,
                },
            ),
            ({
                let start = match old(self).start_ms {
                    Some(s) => s,
                    None => now_ms,
                };
                let delta: u128 = if now_ms >= start {
                    (now_ms - start) as u128
                } else {
                    0
                };
                let entry = TraceEntry {
                    seq: final(self).seq,
                    delta_ms: delta,
                    message: message,
                };
                if old(self).entries@.len() < TRACE_CAPACITY {
                    final(self).entries@ == old(self).entries@.push(entry)
                } else {
                    final(self).entries@ == old(self).entries@.subrange(
                        1,
                        old(self).entries@.len() as int,
                    ).push(entry)
                }
            }),
    {
        let start = match self.start_ms {
            Some(s) => s,
            None => {
                self.start_ms = Some(now_ms);
                now_ms
            },
        };
        let delta = now_ms.saturating_sub(start);
        self.seq = self.seq.saturating_add(1);
        if self.entries.len() >= TRACE_CAPACITY {
            let _ = self.entries.pop_front();
        }
        self.entries.push_back(TraceEntry { seq: self.seq, delta_ms: delta, message });
    }

    /// The most recent `limit` entries (all, if `limit` is absent or larger
    /// than what is stored), oldest first.
    pub fn snapshot(&self, limit: Option<usize>) -> (r: Vec<TraceEntry>)
        ensures
            ({
                let len = self.entries@.len() as int;
                let wanted: int = match limit {
                    Some(l) => if l < len {
                        l as int
                    } else {
                        len
                    },
                    None => len,
                };
                r@ == self.entries@.subrange(len - wanted, len)
            }),
    {
        let len = self.entries.len();
        let wanted = match limit {
            Some(l) => if l < len {
                l
            } else {
                len
            },
            None => len,
        };
        let mut r: Vec<TraceEntry> = Vec::new();
        let mut i: usize = len - wanted;
        while i < len
            invariant
                len == self.entries@.len(),
                wanted <= len,
                len - wanted <= i <= len,
                r@ == self.entries@.subrange(len - wanted, i as int),
            decreases len - i,
        {
            r.push(self.entries[i].clone());
            proof {
                assert(self.entries@.subrange(len - wanted, i + 1) =~= self.entries@.subrange(
                    len - wanted,
                    i as int,
                ).push(self.entries@[i as int]));
            }
            i += 1;
        }
        r
    }

    /// Empty the buffer. The sequence counter and time origin are kept.
    pub fn clear(&mut self)
        ensures
            final(self).wf(),
            final(self).entries@.len() == 0,
            final(self).seq == old(self).seq,
            final(self).start_ms == old(self).start_ms,
    {
        self.entries.clear();
    }
}

} // verus!
