use vstd::prelude::*;
use crate::lifecycle::{after_send, Lifecycle, SendOutcome};
use crate::rate::{rate_spec, RateWindow};
use crate::reporter::Report;

verus! {

/// Length of a combiner's throughput window, in microseconds.
pub const COMBINER_WINDOW_MICROS: u64 = 250_000;

/// The open batch after one more message arrives: it grows by the message, or,
/// once it holds `limit` messages, is handed on and replaced by an empty one.
pub open spec fn batch_after(batch: Seq<u64>, limit: nat, item: u64) -> Seq<u64> {
    if batch.len() + 1 >= limit {
        Seq::empty()
    } else {
        batch.push(item)
    }
}

/// The batch size that governs the open batch after one more message arrives:
/// it is fixed when a batch begins, so only a fresh batch takes the current
/// setting `size`.
pub open spec fn limit_after(batch: Seq<u64>, limit: nat, item: u64, size: nat) -> nat {
    if batch.len() + 1 >= limit {
        size
    } else {
        limit
    }
}

/// What one more message makes the combiner forward: the full batch, if it is
/// now full.
pub open spec fn forwarded_after(batch: Seq<u64>, limit: nat, item: u64) -> Option<Seq<u64>> {
    if batch.len() + 1 >= limit {
        Some(batch.push(item))
    } else {
        None
    }
}

/// The combiner's open batch, its governing size and the batches forwarded,
/// after the messages `items` arrive one by one while the setting reads `size`.
pub open spec fn feed(batch: Seq<u64>, limit: nat, items: Seq<u64>, size: nat) -> (
    Seq<u64>,
    nat,
    Seq<Seq<u64>>,
)
    decreases items.len(),
{
    if items.len() == 0 {
        (batch, limit, Seq::empty())
    } else {
        let prev = feed(batch, limit, items.drop_last(), size);
        let item = items.last();
        let sent = match forwarded_after(prev.0, prev.1, item) {
            Some(b) => prev.2.push(b),
            None => prev.2,
        };
        (batch_after(prev.0, prev.1, item), limit_after(prev.0, prev.1, item, size), sent)
    }
}

/// A forwarded batch never holds more messages than the batch size in effect
/// when it began: one more message either stays in a batch below that size or
/// completes a batch of exactly that size.
pub proof fn lemma_forwarded_within_start_size(batch: Seq<u64>, limit: nat, item: u64)
    requires
        batch.len() < limit,
    ensures
        forwarded_after(batch, limit, item) matches Some(b) ==> b.len() == limit,
        batch_after(batch, limit, item).len() < limit,
{
}

/// A change of the batch size leaves the open batch alone: a batch begun under
/// `limit` still completes at `limit` messages while the setting reads `size`,
/// and only the batch begun after it is governed by `size`.
pub proof fn lemma_size_change_spares_open_batch(
    batch: Seq<u64>,
    limit: nat,
    items: Seq<u64>,
    size: nat,
)
    requires
        batch.len() < limit,
        batch.len() + items.len() == limit,
    ensures
        feed(batch, limit, items, size).2 == seq![batch + items],
        feed(batch, limit, items, size).1 == size,
        feed(batch, limit, items, size).0 == Seq::<u64>::empty(),
{
    lemma_feed_below_limit(batch, limit, items.drop_last(), size);
    assert(items.drop_last() =~= items.take(items.len() - 1));
    assert((batch + items.drop_last()).push(items.last()) =~= batch + items);
}

/// Messages that do not fill the open batch only extend it.
proof fn lemma_feed_below_limit(batch: Seq<u64>, limit: nat, items: Seq<u64>, size: nat)
    requires
        batch.len() + items.len() < limit,
    ensures
        feed(batch, limit, items, size) == (batch + items, limit, Seq::<Seq<u64>>::empty()),
    decreases items.len(),
{
    if items.len() == 0 {
        assert(batch + items =~= batch);
    } else {
        lemma_feed_below_limit(batch, limit, items.drop_last(), size);
        assert((batch + items.drop_last()).push(items.last()) =~= batch + items);
    }
}

/// A batch combiner's state. The batch size is read when a batch begins and
/// governs that batch to its end: a change of the setting takes effect with
/// the next batch.
pub struct Combiner {
    pub id: usize,
    /// The open batch.
    pub batch: Vec<u64>,
    /// The batch size in effect when the open batch began.
    pub limit: usize,
    pub window: RateWindow,
    pub lifecycle: Lifecycle,
}

impl Combiner {
    pub open spec fn wf(&self) -> bool {
        &&& self.limit > 0
        &&& self.batch@.len() < self.limit
        &&& self.window.wf()
        &&& self.window.window_micros == COMBINER_WINDOW_MICROS
    }

    /// A running combiner with an empty batch governed by `batch_size`.
    pub fn new(id: usize, batch_size: usize) -> (r: Combiner)
        requires
            batch_size > 0,
        ensures
            r.wf(),
            r.id == id,
            r.batch@ == Seq::<u64>::empty(),
            r.limit == batch_size,
            r.window.count == 0,
            r.lifecycle == Lifecycle::Running,
    {
        Combiner {
            id,
            batch: Vec::with_capacity(batch_size),
            limit: batch_size,
            window: RateWindow::new(COMBINER_WINDOW_MICROS),
            lifecycle: Lifecycle::Running,
        }
    }

    /// Takes one message, with `batch_size` the setting read now. Appends it to
    /// the open batch; when that fills the batch, returns the batch to forward
    /// and begins an empty one governed by `batch_size`.
    pub fn on_item(&mut self, item: u64, batch_size: usize) -> (out: Option<Vec<u64>>)
        requires
            old(self).wf(),
            batch_size > 0,
        ensures
            final(self).wf(),
            final(self).batch@ == batch_after(old(self).batch@, old(self).limit as nat, item),
            final(self).limit == limit_after(
                old(self).batch@,
                old(self).limit as nat,
                item,
                batch_size as nat,
            ),
            match out {
                Some(b) => forwarded_after(old(self).batch@, old(self).limit as nat, item) == Some(
                    b@,
                ),
                None => forwarded_after(old(self).batch@, old(self).limit as nat, item) is None,
            },
            out matches Some(b) ==> b@.len() == old(self).limit,
            final(self).window.count == if old(self).window.count < u64::MAX {
                old(self).window.count + 1
            } else {
                old(self).window.count as int
            },
            final(self).id == old(self).id,
            final(self).lifecycle == old(self).lifecycle,
    {
        self.window.record();
        self.batch.push(item);
        if self.batch.len() >= self.limit {
            let mut full: Vec<u64> = Vec::with_capacity(batch_size);
            std::mem::swap(&mut self.batch, &mut full);
            self.limit = batch_size;
            Some(full)
        } else {
            None
        }
    }

    /// Takes the outcome of forwarding a batch; a closed channel ends the
    /// combiner. Returns whether it runs on.
    pub fn on_forward(&mut self, outcome: SendOutcome) -> (running: bool)
        requires
            old(self).wf(),
        ensures
            final(self).wf(),
            final(self).lifecycle == after_send(old(self).lifecycle, outcome),
            running == (final(self).lifecycle == Lifecycle::Running),
            outcome == SendOutcome::Closed ==> !running,
            final(self).batch@ == old(self).batch@,
            final(self).limit == old(self).limit,
            final(self).window == old(self).window,
            final(self).id == old(self).id,
    {
        if outcome == SendOutcome::Closed {
            self.lifecycle = Lifecycle::Terminated;
        }
        self.lifecycle == Lifecycle::Running
    }

    /// The input channel has closed: the combiner ends, and the messages of
    /// the open batch are dropped rather than forwarded. Returns how many were
    /// dropped.
    pub fn on_input_closed(&mut self) -> (dropped: usize)
        requires
            old(self).wf(),
        ensures
            final(self).wf(),
            final(self).lifecycle == Lifecycle::Terminated,
            dropped == old(self).batch@.len(),
            final(self).batch@ == Seq::<u64>::empty(),
            final(self).limit == old(self).limit,
            final(self).window == old(self).window,
            final(self).id == old(self).id,
    {
        let dropped = self.batch.len();
        self.batch.clear();
        self.lifecycle = Lifecycle::Terminated;
        dropped
    }

    /// Called with the time since the window opened: once the window is full,
    /// yields this combiner's report of messages per second and starts a new
    /// window.
    pub fn on_tick(&mut self, elapsed_micros: u64) -> (r: Option<Report>)
        requires
            old(self).wf(),
        ensures
            final(self).wf(),
            final(self).id == old(self).id,
            final(self).batch@ == old(self).batch@,
            final(self).limit == old(self).limit,
            final(self).lifecycle == old(self).lifecycle,
            elapsed_micros < COMBINER_WINDOW_MICROS ==> r is None && final(self).window == old(
                self,
            ).window,
            elapsed_micros >= COMBINER_WINDOW_MICROS ==> r == Some(
                Report::Layer1(
                    old(self).id,
                    rate_spec(old(self).window.count as nat, elapsed_micros as nat) as u32,
                ),
            ) && final(self).window.count == 0,
    {
        match self.window.sample(elapsed_micros) {
            Some(rate) => Some(Report::Layer1(self.id, rate)),
            None => None,
        }
    }
}

} // verus!
