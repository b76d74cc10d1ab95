use vstd::prelude::*;

verus! {

/// Microseconds in one second.
pub const MICROS_PER_SECOND: u64 = 1_000_000;

/// Events per second over a window of `elapsed_micros` microseconds that saw
/// `count` events, rounded down and capped at `u32::MAX`.
pub open spec fn rate_spec(count: nat, elapsed_micros: nat) -> nat
    recommends
        elapsed_micros > 0,
{
    let r = count * MICROS_PER_SECOND as nat / elapsed_micros;
    if r > u32::MAX as nat {
        u32::MAX as nat
    } else {
        r
    }
}

/// Events per second for `count` events seen in `elapsed_micros` microseconds.
pub fn rate_per_second(count: u64, elapsed_micros: u64) -> (r: u32)
    requires
        elapsed_micros > 0,
    ensures
        r == rate_spec(count as nat, elapsed_micros as nat),
{
    let scaled: u128 = count as u128 * MICROS_PER_SECOND as u128;
    let per_second: u128 = scaled / elapsed_micros as u128;
    if per_second > u32::MAX as u128 {
        u32::MAX
    } else {
        per_second as u32
    }
}

/// A throughput sampling window: counts events until at least `window_micros`
/// microseconds have passed, then yields a rate and starts over.
#[derive(Debug, Clone, Copy)]
pub struct RateWindow {
    /// Events seen since the window opened.
    pub count: u64,
    /// Shortest span, in microseconds, over which a rate is taken.
    pub window_micros: u64,
}

impl RateWindow {
    pub open spec fn wf(&self) -> bool {
        self.window_micros > 0
    }

    /// An empty window of the given length.
    pub fn new(window_micros: u64) -> (r: RateWindow)
        requires
            window_micros > 0,
        ensures
            r.wf(),
            r.count == 0,
            r.window_micros == window_micros,
    {
        RateWindow { count: 0, window_micros }
    }

    /// Counts one event (the count stays at its maximum once there).
    pub fn record(&mut self)
        ensures
            final(self).count == if old(self).count < u64::MAX {
                old(self).count + 1
            } else {
                old(self).count as int
            },
            final(self).window_micros == old(self).window_micros,
    {
        if self.count < u64::MAX {
            self.count = self.count + 1;
        }
    }

    /// Closes the window once `elapsed_micros` reaches its length: returns the
    /// rate seen and resets the count. Before that, returns `None` and changes
    /// nothing.
    pub fn sample(&mut self, elapsed_micros: u64) -> (r: Option<u32>)
        requires
            old(self).wf(),
        ensures
            elapsed_micros < old(self).window_micros ==> r is None && *final(self) == *old(
                self,
            ),
            elapsed_micros >= old(self).window_micros ==> r == Some(
                rate_spec(old(self).count as nat, elapsed_micros as nat) as u32,
            ) && final(self).count == 0 && final(self).window_micros == old(self).window_micros,
            final(self).wf(),
    {
        if elapsed_micros < self.window_micros {
            None
        } else {
            let r = rate_per_second(self.count, elapsed_micros);
            self.count = 0;
            Some(r)
        }
    }
}

} // verus!
