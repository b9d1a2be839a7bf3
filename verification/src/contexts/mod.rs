//! The instructions of the program. Each takes the values that it reads from
//! its accounts and returns what it writes back or what the runtime must
//! invoke next.
pub mod initialize;
pub mod receive_message;
pub mod register_emitter;
pub mod send_message;

use crate::wormhole::Finality;
use vstd::prelude::*;

verus! {

/// A transfer of lamports through the system program.
#[derive(Clone, Copy, Debug, PartialEq, Eq)]
pub struct FeeTransfer {
    pub from: [u8; 32],
    pub to: [u8; 32],
    pub lamports: u64,
}

/// A call of the Wormhole bridge's `post_message`, signed by the message
/// account and by this program's emitter.
#[derive(Clone, Debug)]
pub struct PostMessageRequest {
    pub batch_id: u32,
    pub payload: Vec<u8>,
    pub finality: Finality,
    /// Signer seeds of the message account.
    pub message_seeds: Vec<Vec<u8>>,
    /// Signer seeds of the emitter.
    pub emitter_seeds: Vec<Vec<u8>>,
}

/// The invocations that an instruction makes, in this order: first the fee
/// transfer where the bridge asks for a fee, then the post.
#[derive(Clone, Debug)]
pub struct CpiPlan {
    pub fee_transfer: Option<FeeTransfer>,
    pub post: PostMessageRequest,
}

/// The fee transfer that a post needs: none where the bridge charges
/// nothing, else the fee from the payer to the fee collector.
pub open spec fn fee_transfer_for(
    t: Option<FeeTransfer>,
    payer: [u8; 32],
    fee_collector: [u8; 32],
    fee: u64,
) -> bool {
    if fee > 0 {
        t matches Some(x) && x.from == payer && x.to == fee_collector && x.lamports == fee
    } else {
        t is None
    }
}

/// The fee transfer that a post needs, where `fee` is what the bridge
/// charges.
pub fn plan_fee_transfer(payer: [u8; 32], fee_collector: [u8; 32], fee: u64) -> (r: Option<
    FeeTransfer,
>)
    ensures
        fee_transfer_for(r, payer, fee_collector, fee),
{
    if fee > 0 {
        Some(FeeTransfer { from: payer, to: fee_collector, lamports: fee })
    } else {
        None
    }
}

} // verus!
