use vstd::prelude::*;

verus! {

/// The emitter registered for a foreign Wormhole chain.
#[derive(Clone, Copy, Debug, Default, PartialEq, Eq)]
pub struct ForeignEmitter {
    /// Wormhole chain ID of the emitter.
    pub chain: u16,
    /// Wormhole address of the emitter.
    pub address: [u8; 32],
}

/// Whether `address` is the address of the registered emitter `e`.
pub open spec fn is_registered_address(e: ForeignEmitter, address: Seq<u8>) -> bool {
    address == e.address@
}

impl ForeignEmitter {
    /// Whether `address` is the registered emitter's address.
    pub fn verify(&self, address: &[u8; 32]) -> (r: bool)
        ensures
            r == is_registered_address(*self, address@),
    {
        let mut i: usize = 0;
        while i < 32
            invariant
                i <= 32,
                forall|k: int| 0 <= k < i ==> address@[k] == self.address@[k],
            decreases 32 - i,
        {
            if address[i] != self.address[i] {
                return false;
            }
            i = i + 1;
        }
        assert(address@ =~= self.address@);
        true
    }
}

} // verus!
