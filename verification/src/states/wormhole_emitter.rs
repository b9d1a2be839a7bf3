use vstd::prelude::*;

verus! {

/// The account at this program's Wormhole emitter address.
#[derive(Clone, Copy, Debug, Default, PartialEq, Eq, Structural)]
pub struct WormholeEmitter {
    /// Bump of the emitter address.
    pub bump: u8,
}

} // verus!
