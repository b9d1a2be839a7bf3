use crate::contexts::{plan_fee_transfer, fee_transfer_for, CpiPlan, PostMessageRequest};
use crate::message::{encode, HelloWorldMessage, MessageModel};
use crate::states::config::Config;
use crate::states::wormhole_emitter::WormholeEmitter;
use crate::wormhole::{
    emitter_prefix, emitter_signer_seeds, le_bytes, message_signer_seeds, sent_prefix, Finality,
    INITIAL_SEQUENCE,
};
use vstd::prelude::*;

verus! {

/// Bumps of the program addresses that `initialize` signs for.
pub struct InitializeBumps {
    pub wormhole_emitter: u8,
    pub wormhole_message: u8,
}

/// The accounts that `initialize` reads and writes, by their addresses and
/// contents.
pub struct Initialize {
    /// The signer, who becomes the owner of the program.
    pub owner: [u8; 32],
    /// The new config account.
    pub config: Config,
    /// Address of the Wormhole bridge data.
    pub wormhole_bridge: [u8; 32],
    /// The fee that the bridge charges for a post.
    pub bridge_fee: u64,
    /// Address of the Wormhole fee collector.
    pub wormhole_fee_collector: [u8; 32],
    /// The new emitter account.
    pub wormhole_emitter: WormholeEmitter,
    /// Address of this program's Wormhole sequence tracker.
    pub wormhole_sequence: [u8; 32],
    /// This program's ID.
    pub program_id: [u8; 32],
}

impl Initialize {
    /// Writes the config (owner, Wormhole addresses, no batching, confirmed
    /// finality) and the emitter's bump, and plans the first post: an
    /// `Alive` message that names this program, preceded by the bridge fee
    /// where there is one.
    pub fn initialize(&mut self, bumps: &InitializeBumps) -> (plan: CpiPlan)
        ensures
            final(self).config.owner == old(self).owner,
            final(self).config.wormhole.bridge == old(self).wormhole_bridge,
            final(self).config.wormhole.fee_collector == old(self).wormhole_fee_collector,
            final(self).config.wormhole.sequence == old(self).wormhole_sequence,
            final(self).config.batch_id == 0,
            final(self).config.finality == 0,
            final(self).config.well_formed(),
            final(self).wormhole_emitter.bump == bumps.wormhole_emitter,
            final(self).owner == old(self).owner,
            final(self).wormhole_bridge == old(self).wormhole_bridge,
            final(self).bridge_fee == old(self).bridge_fee,
            final(self).wormhole_fee_collector == old(self).wormhole_fee_collector,
            final(self).wormhole_sequence == old(self).wormhole_sequence,
            final(self).program_id == old(self).program_id,
            fee_transfer_for(
                plan.fee_transfer,
                old(self).owner,
                old(self).wormhole_fee_collector,
                old(self).bridge_fee,
            ),
            plan.post.batch_id == 0,
            plan.post.payload@ == encode(MessageModel::Alive { program_id: old(self).program_id@ }),
            plan.post.finality == Finality::Confirmed,
            plan.post.message_seeds.deep_view() == seq![
                sent_prefix(),
                le_bytes(INITIAL_SEQUENCE as nat, 8),
                seq![bumps.wormhole_message],
            ],
            plan.post.emitter_seeds.deep_view() == seq![
                emitter_prefix(),
                seq![bumps.wormhole_emitter],
            ],
    {
        self.config.owner = self.owner;
        self.config.wormhole.bridge = self.wormhole_bridge;
        self.config.wormhole.fee_collector = self.wormhole_fee_collector;
        self.config.wormhole.sequence = self.wormhole_sequence;
        self.config.batch_id = 0;
        self.config.finality = Finality::Confirmed.to_u8();
        self.wormhole_emitter.bump = bumps.wormhole_emitter;

        let fee_transfer = plan_fee_transfer(self.owner, self.wormhole_fee_collector, self.bridge_fee);

        let mut payload: Vec<u8> = Vec::new();
        let alive = HelloWorldMessage::Alive { program_id: self.program_id };
        let written = alive.serialize(&mut payload);
        assert(written is Ok);
        assert(payload@ =~= encode(alive@));

        let post = PostMessageRequest {
            batch_id: self.config.batch_id,
            payload,
            finality: Finality::Confirmed,
            message_seeds: message_signer_seeds(INITIAL_SEQUENCE, bumps.wormhole_message),
            emitter_seeds: emitter_signer_seeds(self.wormhole_emitter.bump),
        };
        CpiPlan { fee_transfer, post }
    }
}

} // verus!
