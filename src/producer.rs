use vstd::prelude::*;
use crate::lifecycle::{after_send, Lifecycle, SendOutcome};
use crate::rate::RateWindow;
use crate::reporter::Report;

verus! {

/// Multiplier of the producers' linear-congruential generator.
pub const LCG_MULTIPLIER: u64 = 1103515245;

/// Increment of the producers' linear-congruential generator.
pub const LCG_INCREMENT: u64 = 12345;

/// Length of a producer's throughput window, in microseconds.
pub const PRODUCER_WINDOW_MICROS: u64 = 100_000;

/// One step of the generator: `x * LCG_MULTIPLIER + LCG_INCREMENT` modulo 2^64.
pub open spec fn lcg_step(x: u64) -> u64 {
    ((x as int * LCG_MULTIPLIER as int + LCG_INCREMENT as int) % 0x1_0000_0000_0000_0000int) as u64
}

/// The `n`-th message of a producer whose generator was seeded with `seed`.
pub open spec fn lcg_nth(seed: u64, n: nat) -> u64
    decreases n,
{
    if n == 0 {
        seed
    } else {
        lcg_step(lcg_nth(seed, (n - 1) as nat))
    }
}

/// Advances the generator by one step.
pub fn next_lcg(x: u64) -> (r: u64)
    ensures
        r == lcg_step(x),
{
    x.wrapping_mul(LCG_MULTIPLIER).wrapping_add(LCG_INCREMENT)
}

/// A producer's state: its generator, its throughput window and its lifecycle.
pub struct Producer {
    pub id: usize,
    /// The last message generated (the seed before the first).
    pub counter: u64,
    /// Messages generated since the producer started.
    pub generated: Ghost<nat>,
    pub window: RateWindow,
    pub lifecycle: Lifecycle,
}

impl Producer {
    pub open spec fn wf(&self) -> bool {
        &&& self.window.wf()
        &&& self.window.window_micros == PRODUCER_WINDOW_MICROS
        &&& self.counter == lcg_nth(self.id as u64, self.generated@)
    }

    /// A running producer whose generator is seeded with its identity.
    pub fn new(id: usize) -> (r: Producer)
        ensures
            r.wf(),
            r.id == id,
            r.counter == id as u64,
            r.generated@ == 0,
            r.window.count == 0,
            r.lifecycle == Lifecycle::Running,
    {
        Producer {
            id,
            counter: id as u64,
            generated: Ghost(0),
            window: RateWindow::new(PRODUCER_WINDOW_MICROS),
            lifecycle: Lifecycle::Running,
        }
    }

    /// The next message to send: one step of the generator.
    pub fn next_message(&mut self) -> (m: u64)
        requires
            old(self).wf(),
            old(self).lifecycle == Lifecycle::Running,
        ensures
            final(self).wf(),
            m == lcg_step(old(self).counter),
            m == lcg_nth(old(self).id as u64, final(self).generated@),
            final(self).generated@ == old(self).generated@ + 1,
            final(self).counter == m,
            final(self).id == old(self).id,
            final(self).window == old(self).window,
            final(self).lifecycle == old(self).lifecycle,
    {
        let m = next_lcg(self.counter);
        self.counter = m;
        self.generated = Ghost(self.generated@ + 1);
        m
    }

    /// Takes the outcome of the send of the latest message. A delivery is
    /// counted; a closed channel ends the producer. Returns whether it runs on.
    pub fn on_send(&mut self, outcome: SendOutcome) -> (running: bool)
        requires
            old(self).wf(),
        ensures
            final(self).wf(),
            final(self).lifecycle == after_send(old(self).lifecycle, outcome),
            running == (final(self).lifecycle == Lifecycle::Running),
            outcome == SendOutcome::Closed ==> !running,
            outcome == SendOutcome::Delivered ==> final(self).window.count == if old(
                self,
            ).window.count < u64::MAX {
                old(self).window.count + 1
            } else {
                old(self).window.count as int
            },
            outcome == SendOutcome::Closed ==> final(self).window == old(self).window,
            final(self).id == old(self).id,
            final(self).counter == old(self).counter,
            final(self).generated == old(self).generated,
    {
        match outcome {
            SendOutcome::Delivered => {
                self.window.record();
            },
            SendOutcome::Closed => {
                self.lifecycle = Lifecycle::Terminated;
            },
        }
        match self.lifecycle {
            Lifecycle::Running => true,
            Lifecycle::Terminated => false,
        }
    }

    /// Called with the time since the window opened: once the window is full,
    /// yields this producer's report and starts a new window.
    pub fn on_tick(&mut self, elapsed_micros: u64) -> (r: Option<Report>)
        requires
            old(self).wf(),
        ensures
            final(self).wf(),
            final(self).id == old(self).id,
            final(self).counter == old(self).counter,
            final(self).lifecycle == old(self).lifecycle,
            final(self).generated == old(self).generated,
            elapsed_micros < PRODUCER_WINDOW_MICROS ==> r is None && final(self).window == old(
                self,
            ).window,
            elapsed_micros >= PRODUCER_WINDOW_MICROS ==> r == Some(
                Report::Producer(
                    old(self).id,
                    crate::rate::rate_spec(
                        old(self).window.count as nat,
                        elapsed_micros as nat,
                    ) as u32,
                ),
            ) && final(self).window.count == 0,
    {
        match self.window.sample(elapsed_micros) {
            Some(rate) => Some(Report::Producer(self.id, rate)),
            None => None,
        }
    }
}

} // verus!
