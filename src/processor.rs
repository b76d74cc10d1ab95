use vstd::prelude::*;
use crate::config::{delay_micros, delay_micros_spec, Config};
use crate::lifecycle::Lifecycle;
use crate::rate::{rate_spec, RateWindow};
use crate::reporter::Report;

verus! {

/// Length of a layer-2 processor's throughput window, in microseconds.
pub const PROCESSOR_WINDOW_MICROS: u64 = 250_000;

/// A layer-2 processor's state: its throughput window and its lifecycle.
pub struct Processor {
    pub id: usize,
    pub window: RateWindow,
    pub lifecycle: Lifecycle,
}

impl Processor {
    pub open spec fn wf(&self) -> bool {
        &&& self.window.wf()
        &&& self.window.window_micros == PROCESSOR_WINDOW_MICROS
    }

    /// A running processor with an empty window.
    pub fn new(id: usize) -> (r: Processor)
        ensures
            r.wf(),
            r.id == id,
            r.window.count == 0,
            r.lifecycle == Lifecycle::Running,
    {
        Processor {
            id,
            window: RateWindow::new(PROCESSOR_WINDOW_MICROS),
            lifecycle: Lifecycle::Running,
        }
    }

    /// How long to spend on the batch just received, in microseconds: the
    /// delay that the configuration sets now.
    pub fn cost_of_batch(&self, config: &Config) -> (micros: u64)
        ensures
            micros == delay_micros_spec(config.delay_tenths),
            config.delay_tenths == 0 ==> micros == 0,
    {
        delay_micros(config.delay_tenths)
    }

    /// Counts one batch as processed.
    pub fn on_batch_done(&mut self)
        requires
            old(self).wf(),
        ensures
            final(self).wf(),
            final(self).window.count == if old(self).window.count < u64::MAX {
                old(self).window.count + 1
            } else {
                old(self).window.count as int
            },
            final(self).id == old(self).id,
            final(self).lifecycle == old(self).lifecycle,
    {
        self.window.record();
    }

    /// The input channel has closed: the processor ends.
    pub fn on_input_closed(&mut self)
        ensures
            final(self).lifecycle == Lifecycle::Terminated,
            final(self).id == old(self).id,
            final(self).window == old(self).window,
    {
        self.lifecycle = Lifecycle::Terminated;
    }

    /// Called with the time since the window opened: once the window is full,
    /// yields this processor's report of batches per second and starts a new
    /// window.
    pub fn on_tick(&mut self, elapsed_micros: u64) -> (r: Option<Report>)
        requires
            old(self).wf(),
        ensures
            final(self).wf(),
            final(self).id == old(self).id,
            final(self).lifecycle == old(self).lifecycle,
            elapsed_micros < PROCESSOR_WINDOW_MICROS ==> r is None && final(self).window == old(
                self,
            ).window,
            elapsed_micros >= PROCESSOR_WINDOW_MICROS ==> r == Some(
                Report::Layer2(
                    old(self).id,
                    rate_spec(old(self).window.count as nat, elapsed_micros as nat) as u32,
                ),
            ) && final(self).window.count == 0,
    {
        match self.window.sample(elapsed_micros) {
            Some(rate) => Some(Report::Layer2(self.id, rate)),
            None => None,
        }
    }
}

} // verus!
