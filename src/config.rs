use vstd::prelude::*;

verus! {

/// Batch size in effect when the pipeline starts.
pub const DEFAULT_BATCH_SIZE: usize = 32;

/// Amount by which the operator's controls move the batch size.
pub const BATCH_SIZE_STEP: usize = 32;

/// Length of one unit of simulated processing delay (a tenth of a second).
pub const MICROS_PER_DELAY_UNIT: u64 = 100_000;

/// Why a tuning request was turned down.
#[derive(Debug, Clone, Copy, PartialEq, Eq, Structural)]
pub enum ConfigError {
    /// A batch must hold at least one message.
    ZeroBatchSize,
}

/// The two runtime tuning knobs that the workers read.
#[derive(Debug, Clone, Copy)]
pub struct Config {
    /// Number of messages a combiner gathers before it forwards a batch.
    pub batch_size: usize,
    /// Simulated cost of one layer-2 batch, in tenths of a second.
    pub delay_tenths: u32,
}

/// The simulated cost of one batch, in microseconds, for a delay given in tenths
/// of a second.
pub open spec fn delay_micros_spec(delay_tenths: u32) -> nat {
    delay_tenths as nat * MICROS_PER_DELAY_UNIT as nat
}

/// Converts a delay in tenths of a second to microseconds.
pub fn delay_micros(delay_tenths: u32) -> (r: u64)
    ensures
        r == delay_micros_spec(delay_tenths),
{
    delay_tenths as u64 * MICROS_PER_DELAY_UNIT
}

impl Config {
    /// A configuration is usable when batches can hold at least one message.
    pub open spec fn wf(&self) -> bool {
        self.batch_size > 0
    }

    /// The starting configuration: batches of 32 and no processing delay.
    pub fn new() -> (r: Config)
        ensures
            r.wf(),
            r.batch_size == DEFAULT_BATCH_SIZE,
            r.delay_tenths == 0,
    {
        Config { batch_size: DEFAULT_BATCH_SIZE, delay_tenths: 0 }
    }

    /// Sets the batch size; a size of zero is refused and changes nothing.
    pub fn set_batch_size(&mut self, size: usize) -> (r: Result<(), ConfigError>)
        ensures
            size == 0 <==> r == Err::<(), ConfigError>(ConfigError::ZeroBatchSize),
            size == 0 ==> *final(self) == *old(self),
            size > 0 ==> final(self).batch_size == size,
            final(self).delay_tenths == old(self).delay_tenths,
    {
        if size == 0 {
            Err(ConfigError::ZeroBatchSize)
        } else {
            self.batch_size = size;
            Ok(())
        }
    }

    /// Sets the simulated processing delay, in tenths of a second.
    pub fn set_processing_delay(&mut self, delay_tenths: u32)
        ensures
            final(self).delay_tenths == delay_tenths,
            final(self).batch_size == old(self).batch_size,
    {
        self.delay_tenths = delay_tenths;
    }

    /// Raises the batch size by one step, unless that would overflow.
    pub fn increase_batch_size(&mut self)
        ensures
            final(self).batch_size == if old(self).batch_size <= usize::MAX - BATCH_SIZE_STEP {
                old(self).batch_size + BATCH_SIZE_STEP
            } else {
                old(self).batch_size as int
            },
            final(self).delay_tenths == old(self).delay_tenths,
    {
        if self.batch_size <= usize::MAX - BATCH_SIZE_STEP {
            self.batch_size = self.batch_size + BATCH_SIZE_STEP;
        }
    }

    /// Lowers the batch size by one step, but never to one step or less.
    pub fn decrease_batch_size(&mut self)
        ensures
            final(self).batch_size == if old(self).batch_size > BATCH_SIZE_STEP {
                old(self).batch_size - BATCH_SIZE_STEP
            } else {
                old(self).batch_size as int
            },
            final(self).delay_tenths == old(self).delay_tenths,
            old(self).wf() ==> final(self).wf(),
    {
        if self.batch_size > BATCH_SIZE_STEP {
            self.batch_size = self.batch_size - BATCH_SIZE_STEP;
        }
    }

    /// Raises the processing delay by a tenth of a second, unless that would
    /// overflow.
    pub fn increase_delay(&mut self)
        ensures
            final(self).delay_tenths == if old(self).delay_tenths < u32::MAX {
                old(self).delay_tenths + 1
            } else {
                old(self).delay_tenths as int
            },
            final(self).batch_size == old(self).batch_size,
    {
        if self.delay_tenths < u32::MAX {
            self.delay_tenths = self.delay_tenths + 1;
        }
    }

    /// Lowers the processing delay by a tenth of a second, stopping at zero.
    pub fn decrease_delay(&mut self)
        ensures
            final(self).delay_tenths == if old(self).delay_tenths > 0 {
                old(self).delay_tenths - 1
            } else {
                0int
            },
            final(self).batch_size == old(self).batch_size,
    {
        if self.delay_tenths > 0 {
            self.delay_tenths = self.delay_tenths - 1;
        }
    }

    /// The simulated cost of one batch under this configuration, in microseconds.
    pub fn processing_delay_micros(&self) -> (r: u64)
        ensures
            r == delay_micros_spec(self.delay_tenths),
    {
        delay_micros(self.delay_tenths)
    }
}

} // verus!
