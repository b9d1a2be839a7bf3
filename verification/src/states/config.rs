use vstd::prelude::*;

verus! {

/// The Wormhole accounts that this program posts through.
#[derive(Clone, Copy, Debug, Default, PartialEq, Eq)]
pub struct WormholeAddresses {
    /// Address of the Wormhole bridge data.
    pub bridge: [u8; 32],
    /// Address of the Wormhole fee collector.
    pub fee_collector: [u8; 32],
    /// Address of this program's Wormhole sequence tracker.
    pub sequence: [u8; 32],
}

/// The program's configuration, written once by `initialize`.
#[derive(Clone, Copy, Debug, Default, PartialEq, Eq)]
pub struct Config {
    /// The owner, who alone may register foreign emitters.
    pub owner: [u8; 32],
    pub wormhole: WormholeAddresses,
    /// Batch ID of posted messages; 0 means no batching.
    pub batch_id: u32,
    /// Finality of posted messages, stored as its number.
    pub finality: u8,
}

impl Config {
    /// The stored finality is the number of a finality.
    pub open spec fn well_formed(&self) -> bool {
        self.finality <= 1
    }
}

} // verus!
