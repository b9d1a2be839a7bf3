use crate::common::HelloWorldError;
use crate::states::foreign_emitter::{is_registered_address, ForeignEmitter};
use crate::wormhole::CHAIN_ID_SOLANA;
use vstd::prelude::*;

verus! {

/// What `register_emitter` writes: the foreign emitter account of the
/// chain, created if it did not exist.
pub struct RegisterEmitter {
    pub foreign_emitter: ForeignEmitter,
}

/// Whether an emitter may be registered: its chain is neither 0 nor
/// Solana's, and its address is not all zeros.
pub open spec fn valid_foreign_emitter(chain: u16, address: Seq<u8>) -> bool {
    &&& chain > 0
    &&& chain != CHAIN_ID_SOLANA
    &&& exists|i: int| 0 <= i < address.len() && address[i] != 0
}

impl RegisterEmitter {
    /// Registers `address` as the emitter of `chain`, replacing any earlier
    /// one. Refused with `InvalidForeignEmitter` for a forbidden chain or a
    /// zero address, in which case nothing changes.
    pub fn register_emitter(&mut self, chain: u16, address: [u8; 32]) -> (r: Result<
        (),
        HelloWorldError,
    >)
        ensures
            r is Ok <==> valid_foreign_emitter(chain, address@),
            r is Ok <==> (chain != 0 && chain != 1 && exists|k: int|
                0 <= k < 32 && address@[k] != 0),
            r is Ok ==> final(self).foreign_emitter.chain == chain
                && final(self).foreign_emitter.address == address,
            r is Err ==> r == Err::<(), HelloWorldError>(HelloWorldError::InvalidForeignEmitter)
                && final(self).foreign_emitter == old(self).foreign_emitter,
    {
        let mut all_zero = true;
        let mut i: usize = 0;
        while i < 32
            invariant
                i <= 32,
                all_zero <==> forall|k: int| 0 <= k < i ==> address@[k] == 0,
            decreases 32 - i,
        {
            if address[i] != 0 {
                all_zero = false;
            }
            i = i + 1;
        }
        if chain > 0 && chain != CHAIN_ID_SOLANA && !all_zero {
            self.foreign_emitter.chain = chain;
            self.foreign_emitter.address = address;
            Ok(())
        } else {
            Err(HelloWorldError::InvalidForeignEmitter)
        }
    }
}

/// An emitter account that `register_emitter` wrote with `address`
/// verifies `address` and no other address.
pub proof fn lemma_registered_emitter_verifies(e: ForeignEmitter, address: [u8; 32], other: Seq<u8>)
    requires
        e.address == address,
    ensures
        is_registered_address(e, address@),
        other != address@ ==> !is_registered_address(e, other),
{
}

/// Registration is allowed exactly for the chains other than 0 and Solana's
/// (1) and the addresses that are not all zeros.
pub proof fn lemma_valid_foreign_emitter_exactly(chain: u16, address: [u8; 32])
    ensures
        valid_foreign_emitter(chain, address@) <==> (chain != 0 && chain != 1 && exists|k: int|
            0 <= k < 32 && address@[k] != 0),
{
}

/// Any chain other than 0 and Solana's (1), whatever its number, may be
/// registered with any address that has a non-zero byte, wherever that
/// byte stands.
pub proof fn lemma_nonzero_byte_is_registrable(chain: u16, address: [u8; 32], k: int)
    requires
        chain != 0,
        chain != 1,
        0 <= k < 32,
        address@[k] != 0,
    ensures
        valid_foreign_emitter(chain, address@),
{
}

/// Only the all-zero address is refused on a registrable chain: an address
/// is refused there exactly when every one of its 32 bytes is 0.
pub proof fn lemma_only_zero_address_is_refused(chain: u16, address: [u8; 32])
    requires
        chain != 0,
        chain != 1,
    ensures
        !valid_foreign_emitter(chain, address@) <==> (forall|k: int| 0 <= k < 32 ==> address@[k] == 0),
{
}

/// Chain 0 and Solana's chain (1) are refused, whatever the address.
pub proof fn lemma_zero_and_solana_chains_are_refused(address: [u8; 32])
    ensures
        !valid_foreign_emitter(0, address@),
        !valid_foreign_emitter(1, address@),
{
}

} // verus!
