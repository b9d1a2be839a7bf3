use vstd::prelude::*;

verus! {

/// The longest message that a `Received` account stores.
pub const MESSAGE_MAX_LENGTH: usize = 1024;

/// A message received from a registered foreign emitter.
#[derive(Clone, Debug, Default)]
pub struct Received {
    pub batch_id: u32,
    /// Keccak256 hash of the verified Wormhole message.
    pub wormhole_message_hash: [u8; 32],
    /// The message of the `Hello` payload.
    pub message: Vec<u8>,
}

} // verus!
