use crate::common::HelloWorldError;
use crate::message::{
    decode, encode, lemma_decode_encode, readable, HelloWorldMessage, MessageError, MessageModel,
    HELLO_MESSAGE_MAX_LENGTH,
};
use crate::states::received::{Received, MESSAGE_MAX_LENGTH};
use vstd::prelude::*;

verus! {

/// What `receive_message` reads of a verified Wormhole message posted by a
/// registered foreign emitter.
pub struct PostedMessage {
    pub batch_id: u32,
    /// The payload, read as a [`HelloWorldMessage`].
    pub data: HelloWorldMessage,
}

/// The accounts that `receive_message` reads and writes.
pub struct ReceiveMessage {
    pub posted: PostedMessage,
    /// The account that stores the received message.
    pub received: Received,
}

/// Whether a posted payload is accepted: a `Hello` message that fits in a
/// `Received` account.
pub open spec fn acceptable(data: MessageModel) -> bool {
    data matches MessageModel::Hello { message } && message.len() <= MESSAGE_MAX_LENGTH
}

impl ReceiveMessage {
    /// Stores the posted `Hello` message with its batch ID and the hash of
    /// the verified message. Any other payload, or a message longer than
    /// [`MESSAGE_MAX_LENGTH`], is refused with `InvalidMessage` and nothing
    /// is written.
    pub fn receive_message(&mut self, vaa_hash: [u8; 32]) -> (r: Result<(), HelloWorldError>)
        ensures
            r is Ok <==> acceptable(old(self).posted.data@),
            r is Ok ==> {
                &&& final(self).received.batch_id == old(self).posted.batch_id
                &&& final(self).received.wormhole_message_hash == vaa_hash
                &&& old(self).posted.data@ matches MessageModel::Hello { message }
                    && final(self).received.message@ == message
            },
            r is Err ==> r == Err::<(), HelloWorldError>(HelloWorldError::InvalidMessage)
                && final(self).received == old(self).received,
            final(self).posted == old(self).posted,
    {
        match &self.posted.data {
            HelloWorldMessage::Hello { message } => {
                if message.len() > MESSAGE_MAX_LENGTH {
                    return Err(HelloWorldError::InvalidMessage);
                }
                let stored = message.clone();
                self.received.batch_id = self.posted.batch_id;
                self.received.wormhole_message_hash = vaa_hash;
                self.received.message = stored;
                Ok(())
            },
            _ => Err(HelloWorldError::InvalidMessage),
        }
    }
}

/// Every `Hello` message that a payload yields fits in a `Received`
/// account, so `receive_message` refuses no such message for its length.
pub proof fn lemma_decoded_hello_is_acceptable(b: Seq<u8>)
    requires
        readable(b),
        decode(b) matches Ok(MessageModel::Hello { .. }),
    ensures
        acceptable(decode(b)->Ok_0),
{
}

/// A message that `send_message` posts is read back from the payload, with
/// whatever bytes follow it, as the same `Hello` message, and
/// `receive_message` accepts it.
pub proof fn lemma_sent_message_is_received(message: Seq<u8>, rest: Seq<u8>)
    requires
        message.len() <= HELLO_MESSAGE_MAX_LENGTH,
    ensures
        readable(encode(MessageModel::Hello { message }) + rest),
        decode(encode(MessageModel::Hello { message }) + rest) == Ok::<MessageModel, MessageError>(
            MessageModel::Hello { message },
        ),
        acceptable(MessageModel::Hello { message }),
{
    lemma_decode_encode(MessageModel::Hello { message }, rest);
}

/// An `Alive` payload is never stored.
pub proof fn lemma_alive_is_refused(program_id: Seq<u8>)
    ensures
        !acceptable(MessageModel::Alive { program_id }),
{
}

} // verus!
