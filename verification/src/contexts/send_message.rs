use crate::contexts::{fee_transfer_for, plan_fee_transfer, FeeTransfer, PostMessageRequest};
use crate::message::{encodable, encode, HelloWorldMessage, MessageError, MessageModel};
use crate::states::config::Config;
use crate::wormhole::{
    emitter_prefix, emitter_signer_seeds, finality_code, le_bytes, message_signer_seeds,
    sent_prefix, Finality,
};
use vstd::prelude::*;

verus! {

/// Bumps of the program addresses that `send_message` signs for.
pub struct SendMessageBumps {
    pub wormhole_emitter: u8,
    pub wormhole_message: u8,
}

/// The accounts that `send_message` reads, by their addresses and contents.
pub struct SendMessage {
    /// The signer who pays for the post.
    pub payer: [u8; 32],
    pub config: Config,
    /// The fee that the bridge charges for a post.
    pub bridge_fee: u64,
    /// Address of the Wormhole fee collector.
    pub wormhole_fee_collector: [u8; 32],
    /// The sequence number that the next post of this program's emitter
    /// gets.
    pub next_sequence: u64,
}

impl SendMessage {
    /// Plans what sending `message` invokes, in this order: first the bridge
    /// fee, transferred from the payer to the fee collector whenever the
    /// bridge charges one, then the post of `message` as a `Hello` payload
    /// with the batch ID and finality of the config. A message longer than
    /// `HELLO_MESSAGE_MAX_LENGTH` cannot be posted: the second part is then
    /// that error, raised after the fee transfer. A message that can be
    /// posted needs the config's finality to be a finality's number.
    pub fn send_message(&mut self, bumps: &SendMessageBumps, message: Vec<u8>) -> (r: (
        Option<FeeTransfer>,
        Result<PostMessageRequest, MessageError>,
    ))
        requires
            encodable(MessageModel::Hello { message: message@ }) ==> old(self).config.well_formed(),
        ensures
            *final(self) == *old(self),
            fee_transfer_for(
                r.0,
                old(self).payer,
                old(self).wormhole_fee_collector,
                old(self).bridge_fee,
            ),
            r.1 is Ok <==> encodable(MessageModel::Hello { message: message@ }),
            r.1 is Err ==> r.1 == Err::<PostMessageRequest, MessageError>(
                MessageError::MessageTooLong,
            ),
            r.1 matches Ok(post) ==> {
                &&& post.batch_id == old(self).config.batch_id
                &&& post.payload@ == encode(MessageModel::Hello { message: message@ })
                &&& finality_code(post.finality) == old(self).config.finality
                &&& post.message_seeds.deep_view() == seq![
                    sent_prefix(),
                    le_bytes(old(self).next_sequence as nat, 8),
                    seq![bumps.wormhole_message],
                ]
                &&& post.emitter_seeds.deep_view() == seq![
                    emitter_prefix(),
                    seq![bumps.wormhole_emitter],
                ]
            },
    {
        let fee_transfer = plan_fee_transfer(self.payer, self.wormhole_fee_collector, self.bridge_fee);

        let hello = HelloWorldMessage::Hello { message };
        let payload = match hello.try_to_vec() {
            Ok(bytes) => bytes,
            Err(e) => return (fee_transfer, Err(e)),
        };
        let finality = Finality::from_u8(self.config.finality).unwrap();
        let post = PostMessageRequest {
            batch_id: self.config.batch_id,
            payload,
            finality,
            message_seeds: message_signer_seeds(self.next_sequence, bumps.wormhole_message),
            emitter_seeds: emitter_signer_seeds(bumps.wormhole_emitter),
        };
        (fee_transfer, Ok(post))
    }
}

} // verus!
