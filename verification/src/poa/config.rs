//! When blocks are produced, and with what.

use vstd::prelude::*;
use crate::blockchain::transaction::ConsensusParameters;

verus! {

/// A span of time, in milliseconds.
#[derive(Clone, Copy, Debug, PartialEq, Eq, Structural, Default, PartialOrd, Ord, Hash)]
pub struct Duration {
    millis: u64,
}

/// A reading of a clock that never goes back, in milliseconds since an
/// origin that the clock's owner chose.
#[derive(Clone, Copy, Debug, PartialEq, Eq, Structural, Default, PartialOrd, Ord, Hash)]
pub struct Instant(pub u64);

impl Duration {
    /// The number of milliseconds of the span.
    pub closed spec fn spec_as_millis(self) -> u64 {
        self.millis
    }

    /// The number of whole seconds of the span.
    pub open spec fn spec_as_secs(self) -> u64 {
        self.spec_as_millis() / 1000
    }

    /// The span of `millis` milliseconds.
    pub closed spec fn spec_from_millis(millis: u64) -> Duration {
        Duration { millis }
    }

    /// The span of `millis` milliseconds.
    #[verifier::when_used_as_spec(spec_from_millis)]
    pub fn from_millis(millis: u64) -> (d: Self)
        ensures
            d == Self::spec_from_millis(millis),
            d.spec_as_millis() == millis,
    {
        Duration { millis }
    }

    /// The span of `secs` seconds; the longest span there is where that
    /// many milliseconds cannot be counted.
    pub fn from_secs(secs: u64) -> (d: Self)
        ensures
            secs * 1000 <= u64::MAX ==> d.spec_as_millis() == secs * 1000,
            secs * 1000 > u64::MAX ==> d.spec_as_millis() == u64::MAX,
    {
        match secs.checked_mul(1000) {
            Some(millis) => Duration { millis },
            None => Duration { millis: u64::MAX },
        }
    }

    /// A span is its number of milliseconds.
    pub broadcast proof fn lemma_millis(millis: u64)
        ensures
            (#[trigger] Self::spec_from_millis(millis)).spec_as_millis() == millis,
    {
    }

    /// The number of milliseconds of the span.
    #[verifier::when_used_as_spec(spec_as_millis)]
    pub fn as_millis(self) -> (millis: u64)
        ensures
            millis == self.spec_as_millis(),
    {
        self.millis
    }

    /// The number of whole seconds of the span.
    #[verifier::when_used_as_spec(spec_as_secs)]
    pub fn as_secs(self) -> (secs: u64)
        ensures
            secs == self.spec_as_secs(),
    {
        self.millis / 1000
    }
}

impl Instant {
    /// The reading `duration` later; the last reading there is where the
    /// clock cannot count that far.
    pub open spec fn spec_after(self, duration: Duration) -> Instant {
        if self.0 + duration.as_millis() > u64::MAX {
            Instant(u64::MAX)
        } else {
            Instant((self.0 + duration.as_millis()) as u64)
        }
    }

    /// The time that went by from `earlier` to this reading; nothing where
    /// `earlier` is the later one.
    pub open spec fn spec_duration_since(self, earlier: Instant) -> u64 {
        if self.0 >= earlier.0 {
            (self.0 - earlier.0) as u64
        } else {
            0
        }
    }

    /// The reading `duration` later.
    #[verifier::when_used_as_spec(spec_after)]
    pub fn after(self, duration: Duration) -> (later: Instant)
        ensures
            later == self.spec_after(duration),
    {
        Instant(self.0.saturating_add(duration.as_millis()))
    }

    /// The time that went by from `earlier` to this reading.
    pub fn duration_since(self, earlier: Instant) -> (elapsed: Duration)
        ensures
            elapsed == Duration::spec_from_millis(self.spec_duration_since(earlier)),
    {
        Duration::from_millis(self.0.saturating_sub(earlier.0))
    }
}

/// The policy that decides when a block is produced.
#[derive(Clone, Copy, Debug, PartialEq, Eq, Structural)]
pub enum Trigger {
    /// Only on request.
    Never,
    /// As soon as the pool holds a transaction, and on request.
    Instant,
    /// Every `block_time`, whatever the pool holds.
    Interval {
        /// The time from one block to the next.
        block_time: Duration,
    },
    /// Once the pool has had no new transaction for `max_tx_idle_time` and
    /// `min_block_time` has gone by since the last block, or `max_block_time`
    /// after the last block whatever the pool holds. A pool that holds more
    /// than a block can take does not wait for the quiet time: its block is
    /// due as soon as `min_block_time` has gone by.
    Hybrid {
        /// The least time from one block to the next.
        min_block_time: Duration,
        /// How long the pool must have been quiet.
        max_tx_idle_time: Duration,
        /// The most time from one block to the next.
        max_block_time: Duration,
    },
}

impl Default for Trigger {
    fn default() -> (t: Self)
        ensures
            t == Trigger::Instant,
    {
        Trigger::Instant
    }
}

/// The secret key that seals blocks.
#[derive(Clone, Copy, Debug, PartialEq, Eq)]
pub struct SecretKey {
    pub bytes: [u8; 32],
}

/// The gas ceiling of a block under the default settings.
pub const DEFAULT_BLOCK_GAS_LIMIT: u64 = 1_000_000;

/// The settings of the scheduler. They are fixed when the service starts.
#[derive(Clone, Copy, Debug, PartialEq, Eq)]
pub struct Config {
    /// When blocks are produced.
    pub trigger: Trigger,
    /// The most gas that the transactions of one block may use.
    pub block_gas_limit: u64,
    /// The key that seals blocks, where the node is an authority.
    pub signing_key: Option<SecretKey>,
    /// Whether the scheduler reports metrics.
    pub metrics: bool,
    /// The consensus parameters of the chain.
    pub consensus_params: ConsensusParameters,
}

impl Default for Config {
    fn default() -> (config: Self)
        ensures
            config.trigger == Trigger::Instant,
            config.block_gas_limit == DEFAULT_BLOCK_GAS_LIMIT,
            config.signing_key.is_none(),
            !config.metrics,
            config.consensus_params == ConsensusParameters::standard(),
    {
        Config {
            trigger: Trigger::default(),
            block_gas_limit: DEFAULT_BLOCK_GAS_LIMIT,
            signing_key: None,
            metrics: false,
            consensus_params: ConsensusParameters::default(),
        }
    }
}

} // verus!
