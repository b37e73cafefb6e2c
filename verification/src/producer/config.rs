//! Configuration of the block producer.

use vstd::prelude::*;

verus! {

/// The settings of a block producer.
#[derive(Clone, Copy, Debug, PartialEq, Eq, Structural)]
pub struct Config {
    /// Whether the executor checks that inputs exist and are unspent.
    pub utxo_validation: bool,
    /// Whether the producer reports metrics.
    pub metrics: bool,
}

impl Default for Config {
    fn default() -> (config: Self)
        ensures
            !config.utxo_validation,
            !config.metrics,
    {
        Config { utxo_validation: false, metrics: false }
    }
}

} // verus!
