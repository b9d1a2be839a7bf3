//! Errors that the program's instructions report.
use vstd::prelude::*;

verus! {

/// Why an instruction of this program is refused.
#[derive(Clone, Copy, Debug, PartialEq, Eq, Structural)]
pub enum HelloWorldError {
    /// The Wormhole bridge account is not the one in the config.
    InvalidWormholeConfig,
    /// The Wormhole fee collector is not the one in the config.
    InvalidWormholeFeeCollector,
    /// The Wormhole sequence tracker is not the one in the config.
    InvalidWormholeSequence,
    /// A foreign emitter with a forbidden chain or a zero address, or a
    /// posted message from an emitter that is not the registered one.
    InvalidForeignEmitter,
    /// Only the owner of the program may do this.
    OwnerOnly,
    /// The posted message is no `Hello` message or is too long to store.
    InvalidMessage,
}

} // verus!
