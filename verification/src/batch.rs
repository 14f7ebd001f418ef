//! Batching: events are collected and handed on when there are enough of
//! them or when the first of them has waited long enough.

use vstd::prelude::*;
use crate::event::UnifiedEvent;

verus! {

/// A buffer of events that are waiting to be handed on.
#[derive(Debug)]
pub struct EventBatchProcessor {
    batch: Vec<UnifiedEvent>,
    batch_size: usize,
    timeout_ms: u64,
    first_at: Option<u64>,
}

/// The size at which a batch is full: the configured size, and 1 where that
/// is 0.
pub open spec fn full_size(batch_size: usize) -> int {
    if batch_size == 0 {
        1
    } else {
        batch_size as int
    }
}

/// Whether `after` and `batches` are what becomes of the buffer `before` when
/// `events` come in at the time `now_ms`: all the events in their order are
/// cut into full batches, and what does not fill a batch waits.
pub open spec fn batched(
    before: EventBatchProcessor,
    events: Seq<UnifiedEvent>,
    now_ms: u64,
    after: EventBatchProcessor,
    batches: Seq<Vec<UnifiedEvent>>,
) -> bool {
    let all = before.pending() + events;
    let size = full_size(before.size());
    &&& after.size() == before.size()
    &&& after.timeout() == before.timeout()
    &&& batches.len() * size + after.pending().len() == all.len()
    &&& forall|k: int|
        0 <= k < batches.len() ==> (#[trigger] batches[k])@ == all.subrange(k * size, k * size + size)
    &&& after.pending() == all.subrange(batches.len() * size, all.len() as int)
    &&& after.waiting_since() == (if after.pending().len() == 0 {
        None
    } else if batches.len() == 0 && before.pending().len() > 0 {
        before.waiting_since()
    } else {
        Some(now_ms)
    })
}

impl EventBatchProcessor {
    /// The events that are waiting, oldest first.
    pub closed spec fn pending(self) -> Seq<UnifiedEvent> {
        self.batch@
    }

    /// The configured size of a batch.
    pub closed spec fn size(self) -> usize {
        self.batch_size
    }

    /// The longest that an event waits, in milliseconds.
    pub closed spec fn timeout(self) -> u64 {
        self.timeout_ms
    }

    /// When the oldest waiting event came in.
    pub closed spec fn waiting_since(self) -> Option<u64> {
        self.first_at
    }

    /// The buffer is never full, and it knows since when it has been waiting
    /// exactly while something waits.
    pub open spec fn well_formed(self) -> bool {
        &&& self.pending().len() < full_size(self.size())
        &&& self.waiting_since().is_some() == (self.pending().len() > 0)
    }

    /// Whether the oldest waiting event has waited for the whole timeout at
    /// the time `now_ms`.
    pub open spec fn timed_out(self, now_ms: u64) -> bool {
        self.waiting_since() matches Some(since) && now_ms >= since && now_ms - since >= self.timeout()
    }

    /// An empty buffer.
    pub fn new(batch_size: usize, timeout_ms: u64) -> (p: EventBatchProcessor)
        ensures
            p.pending().len() == 0,
            p.size() == batch_size,
            p.timeout() == timeout_ms,
            p.well_formed(),
    {
        EventBatchProcessor { batch: Vec::new(), batch_size, timeout_ms, first_at: None }
    }

    /// The number of events that are waiting.
    pub fn len(&self) -> (n: usize)
        ensures
            n == self.pending().len(),
    {
        self.batch.len()
    }

    /// Takes everything out of the buffer.
    fn take_all(&mut self) -> (all: Vec<UnifiedEvent>)
        ensures
            all@ == old(self).pending(),
            final(self).pending().len() == 0,
            final(self).waiting_since().is_none(),
            final(self).size() == old(self).size(),
            final(self).timeout() == old(self).timeout(),
    {
        let mut all: Vec<UnifiedEvent> = Vec::new();
        all.append(&mut self.batch);
        self.first_at = None;
        all
    }

    /// Takes in one event at the time `now_ms`. Where that fills the batch,
    /// the whole batch is returned and the buffer is empty again.
    pub fn add_event(&mut self, event: UnifiedEvent, now_ms: u64) -> (flushed: Option<Vec<UnifiedEvent>>)
        requires
            old(self).well_formed(),
        ensures
            final(self).well_formed(),
            final(self).size() == old(self).size(),
            final(self).timeout() == old(self).timeout(),
            flushed.is_some() == (old(self).pending().len() + 1 == full_size(old(self).size())),
            match flushed {
                Some(batch) => batch@ == old(self).pending().push(event) && final(self).pending().len() == 0,
                None => {
                    &&& final(self).pending() == old(self).pending().push(event)
                    &&& final(self).waiting_since() == (if old(self).pending().len() == 0 {
                        Some(now_ms)
                    } else {
                        old(self).waiting_since()
                    })
                },
            },
    {
        if self.batch.len() == 0 {
            self.first_at = Some(now_ms);
        }
        self.batch.push(event);
        if self.batch_size == 0 || self.batch.len() >= self.batch_size {
            Some(self.take_all())
        } else {
            None
        }
    }

    /// Hands on what waits if the oldest waiting event has waited for the
    /// whole timeout; else nothing changes.
    pub fn poll_timeout(&mut self, now_ms: u64) -> (flushed: Option<Vec<UnifiedEvent>>)
        requires
            old(self).well_formed(),
        ensures
            final(self).well_formed(),
            final(self).size() == old(self).size(),
            final(self).timeout() == old(self).timeout(),
            flushed.is_some() == old(self).timed_out(now_ms),
            match flushed {
                Some(batch) => batch@ == old(self).pending() && batch@.len() > 0 && final(self).pending().len()
                    == 0,
                None => *final(self) == *old(self),
            },
    {
        match self.first_at {
            Some(since) => {
                if now_ms >= since && now_ms - since >= self.timeout_ms {
                    Some(self.take_all())
                } else {
                    None
                }
            },
            None => None,
        }
    }

    /// Hands on what waits, if anything does. After the end of the stream
    /// this gives the rest once, and nothing when asked again.
    pub fn flush(&mut self) -> (flushed: Option<Vec<UnifiedEvent>>)
        requires
            old(self).well_formed(),
        ensures
            final(self).well_formed(),
            final(self).size() == old(self).size(),
            final(self).timeout() == old(self).timeout(),
            final(self).pending().len() == 0,
            flushed.is_some() == (old(self).pending().len() > 0),
            flushed matches Some(batch) ==> batch@ == old(self).pending(),
    {
        if self.batch.len() == 0 {
            None
        } else {
            Some(self.take_all())
        }
    }

    /// The time at which what waits has to be handed on, if anything waits.
    pub fn deadline(&self) -> (at: Option<u64>)
        requires
            self.well_formed(),
        ensures
            match self.waiting_since() {
                Some(since) => at == Some(
                    if since + self.timeout() > u64::MAX {
                        u64::MAX
                    } else {
                        (since + self.timeout()) as u64
                    },
                ),
                None => at.is_none(),
            },
    {
        match self.first_at {
            Some(since) => {
                if self.timeout_ms > u64::MAX - since {
                    Some(u64::MAX)
                } else {
                    Some(since + self.timeout_ms)
                }
            },
            None => None,
        }
    }

    /// Takes in the events of one transaction at the time `now_ms`, in their
    /// order, and returns the batches that they fill. Every event that was
    /// waiting or came in is in a returned batch or still waiting, once, and
    /// in the order in which it came.
    pub fn add_events(&mut self, events: Vec<UnifiedEvent>, now_ms: u64) -> (batches: Vec<Vec<UnifiedEvent>>)
        requires
            old(self).well_formed(),
        ensures
            final(self).well_formed(),
            batched(*old(self), events@, now_ms, *final(self), batches@),
    {
        let ghost all = self.batch@ + events@;
        let ghost before = self.first_at;
        let ghost had = self.batch@.len();
        let size: usize = if self.batch_size == 0 {
            1
        } else {
            self.batch_size
        };
        let mut events = events;
        let mut batches: Vec<Vec<UnifiedEvent>> = Vec::new();
        if self.batch.len() == 0 {
            self.first_at = None;
        }
        self.batch.append(&mut events);
        while self.batch.len() >= size
            invariant
                size == full_size(self.batch_size),
                self.batch_size == old(self).batch_size,
                self.timeout_ms == old(self).timeout_ms,
                batches@.len() * size + self.batch@.len() == all.len(),
                self.batch@ == all.subrange(batches@.len() * size, all.len() as int),
                forall|k: int|
                    0 <= k < batches@.len() ==> (#[trigger] batches@[k])@ == all.subrange(
                        k * size,
                        k * size + size,
                    ),
                self.first_at == (if had == 0 {
                    None
                } else {
                    before
                }),
            decreases self.batch@.len(),
        {
            let ghost taken = batches@.len() as int;
            let ghost rest = self.batch@;
            let mut tail = self.batch.split_off(size);
            core::mem::swap(&mut self.batch, &mut tail);
            proof {
                assert(taken * size + size == (taken + 1) * size) by (nonlinear_arith);
                assert(tail@ =~= all.subrange(taken * size, taken * size + size));
                assert(self.batch@ =~= all.subrange((taken + 1) * size, all.len() as int));
            }
            batches.push(tail);
        }
        if self.batch.len() == 0 {
            self.first_at = None;
        } else if batches.len() > 0 || self.first_at.is_none() {
            self.first_at = Some(now_ms);
        }
        batches
    }
}

} // verus!
