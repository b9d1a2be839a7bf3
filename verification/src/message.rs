//! The `HelloWorldMessage` payload format.
//!
//! A payload starts with a one-byte payload ID:
//! * `0` (`Alive`) is followed by the 32 bytes of a program address;
//! * `1` (`Hello`) is followed by the message length as a big-endian `u16`
//!   and then the message bytes. A message holds at most
//!   [`HELLO_MESSAGE_MAX_LENGTH`] bytes.
use vstd::prelude::*;

verus! {

/// Payload ID of an `Alive` message.
pub const PAYLOAD_ID_ALIVE: u8 = 0;

/// Payload ID of a `Hello` message.
pub const PAYLOAD_ID_HELLO: u8 = 1;

/// The longest message that a `Hello` payload may carry.
pub const HELLO_MESSAGE_MAX_LENGTH: usize = 512;

/// Expected message types for this program. Only valid payloads are:
/// * `Alive`: payload ID 0, emitted when the program is initialized;
/// * `Hello`: payload ID 1, emitted when a message is sent.
#[derive(Clone, Debug)]
pub enum HelloWorldMessage {
    Alive { program_id: [u8; 32] },
    Hello { message: Vec<u8> },
}

/// The mathematical content of a [`HelloWorldMessage`].
pub enum MessageModel {
    Alive { program_id: Seq<u8> },
    Hello { message: Seq<u8> },
}

impl View for HelloWorldMessage {
    type V = MessageModel;

    open spec fn view(&self) -> MessageModel {
        match self {
            HelloWorldMessage::Alive { program_id } => MessageModel::Alive {
                program_id: program_id@,
            },
            HelloWorldMessage::Hello { message } => MessageModel::Hello { message: message@ },
        }
    }
}

/// Why a payload could not be written or read. Both are reported by the
/// program as invalid input.
#[derive(Clone, Copy, Debug, PartialEq, Eq, Structural)]
pub enum MessageError {
    /// A `Hello` message longer than [`HELLO_MESSAGE_MAX_LENGTH`] bytes.
    MessageTooLong,
    /// A payload whose first byte is no known payload ID.
    InvalidPayloadId,
}

/// The two bytes of `n` in big-endian order (`n < 65536`).
pub open spec fn be_u16_bytes(n: nat) -> Seq<u8> {
    seq![(n / 256) as u8, (n % 256) as u8]
}

/// The number that two bytes denote in big-endian order.
pub open spec fn be_u16_value(hi: u8, lo: u8) -> nat {
    (hi as nat) * 256 + (lo as nat)
}

/// Whether a message can be written: a `Hello` message is not too long, an
/// address has 32 bytes.
pub open spec fn encodable(m: MessageModel) -> bool {
    match m {
        MessageModel::Alive { program_id } => program_id.len() == 32,
        MessageModel::Hello { message } => message.len() <= HELLO_MESSAGE_MAX_LENGTH,
    }
}

/// The bytes of a message on the wire.
pub open spec fn encode(m: MessageModel) -> Seq<u8> {
    match m {
        MessageModel::Alive { program_id } => seq![PAYLOAD_ID_ALIVE] + program_id,
        MessageModel::Hello { message } => seq![PAYLOAD_ID_HELLO] + be_u16_bytes(message.len())
            + message,
    }
}

/// The message length that a `Hello` payload announces in bytes 1 and 2.
pub open spec fn announced_length(b: Seq<u8>) -> nat {
    be_u16_value(b[1], b[2])
}

/// Whether a payload can be read without running past its end: it is not
/// empty, an `Alive` payload holds an address, and a `Hello` payload holds
/// its length and, where that length is allowed, as many message bytes.
pub open spec fn readable(b: Seq<u8>) -> bool {
    &&& b.len() >= 1
    &&& b[0] == PAYLOAD_ID_ALIVE ==> b.len() >= 33
    &&& b[0] == PAYLOAD_ID_HELLO ==> b.len() >= 3 && (announced_length(b)
        <= HELLO_MESSAGE_MAX_LENGTH ==> b.len() >= 3 + announced_length(b))
}

/// The message that a readable payload holds, or why it holds none. Bytes
/// after the message are ignored.
pub open spec fn decode(b: Seq<u8>) -> Result<MessageModel, MessageError> {
    if b[0] == PAYLOAD_ID_ALIVE {
        Ok(MessageModel::Alive { program_id: b.subrange(1, 33) })
    } else if b[0] == PAYLOAD_ID_HELLO {
        if announced_length(b) > HELLO_MESSAGE_MAX_LENGTH {
            Err(MessageError::MessageTooLong)
        } else {
            Ok(MessageModel::Hello { message: b.subrange(3, 3 + announced_length(b) as int) })
        }
    } else {
        Err(MessageError::InvalidPayloadId)
    }
}

impl HelloWorldMessage {
    /// Appends the payload bytes of this message to `writer`. A `Hello`
    /// message longer than [`HELLO_MESSAGE_MAX_LENGTH`] is refused and
    /// nothing is written.
    pub fn serialize(&self, writer: &mut Vec<u8>) -> (r: Result<(), MessageError>)
        ensures
            r is Ok <==> encodable(self@),
            r is Ok ==> final(writer)@ == old(writer)@ + encode(self@),
            r is Err ==> r == Err::<(), MessageError>(MessageError::MessageTooLong)
                && final(writer)@ == old(writer)@,
    {
        match self {
            HelloWorldMessage::Alive { program_id } => {
                writer.push(PAYLOAD_ID_ALIVE);
                let ghost start = writer@;
                for i in 0..32
                    invariant
                        start == old(writer)@ + seq![PAYLOAD_ID_ALIVE],
                        writer@ == start + program_id@.subrange(0, i as int),
                {
                    writer.push(program_id[i]);
                    assert(program_id@.subrange(0, i + 1) == program_id@.subrange(0, i as int).push(
                        program_id@[i as int],
                    ));
                }
                assert(program_id@.subrange(0, 32) == program_id@);
                Ok(())
            },
            HelloWorldMessage::Hello { message } => {
                let len = message.len();
                if len > HELLO_MESSAGE_MAX_LENGTH {
                    Err(MessageError::MessageTooLong)
                } else {
                    let n: u16 = len as u16;
                    writer.push(PAYLOAD_ID_HELLO);
                    writer.push((n / 256) as u8);
                    writer.push((n % 256) as u8);
                    let ghost start = writer@;
                    assert(start == old(writer)@ + (seq![PAYLOAD_ID_HELLO] + be_u16_bytes(
                        message@.len(),
                    )));
                    for i in 0..len
                        invariant
                            len == message@.len(),
                            writer@ == start + message@.subrange(0, i as int),
                    {
                        writer.push(message[i]);
                        assert(message@.subrange(0, i + 1) == message@.subrange(0, i as int).push(
                            message@[i as int],
                        ));
                    }
                    assert(message@.subrange(0, len as int) == message@);
                    Ok(())
                }
            },
        }
    }

    /// The payload bytes of this message in a new vector, or the reason it
    /// cannot be written.
    pub fn try_to_vec(&self) -> (r: Result<Vec<u8>, MessageError>)
        ensures
            r is Ok <==> encodable(self@),
            r matches Ok(bytes) ==> bytes@ == encode(self@),
            r is Err ==> r == Err::<Vec<u8>, MessageError>(MessageError::MessageTooLong),
    {
        let mut bytes: Vec<u8> = Vec::new();
        match self.serialize(&mut bytes) {
            Ok(()) => {
                assert(bytes@ == Seq::<u8>::empty() + encode(self@));
                Ok(bytes)
            },
            Err(e) => Err(e),
        }
    }

    /// Reads a message from the start of `buf`. `buf` itself is left as it
    /// is, and bytes after the message are ignored.
    pub fn deserialize(buf: &mut &[u8]) -> (r: Result<HelloWorldMessage, MessageError>)
        requires
            readable(old(buf)@),
        ensures
            final(buf)@ == old(buf)@,
            match r {
                Ok(m) => decode(old(buf)@) == Ok::<MessageModel, MessageError>(m@),
                Err(e) => decode(old(buf)@) == Err::<MessageModel, MessageError>(e),
            },
    {
        let b: &[u8] = *buf;
        if b[0] == PAYLOAD_ID_ALIVE {
            let mut program_id = [0u8; 32];
            for i in 0..32
                invariant
                    b@.len() >= 33,
                    forall|k: int| 0 <= k < i ==> program_id@[k] == b@[k + 1],
            {
                program_id[i] = b[i + 1];
            }
            assert(program_id@ == b@.subrange(1, 33));
            Ok(HelloWorldMessage::Alive { program_id })
        } else if b[0] == PAYLOAD_ID_HELLO {
            let length: usize = (b[1] as usize) * 256 + (b[2] as usize);
            if length > HELLO_MESSAGE_MAX_LENGTH {
                Err(MessageError::MessageTooLong)
            } else {
                let mut message: Vec<u8> = Vec::new();
                for i in 0..length
                    invariant
                        length <= HELLO_MESSAGE_MAX_LENGTH,
                        b@.len() >= 3 + length,
                        message@ == b@.subrange(3, 3 + i),
                {
                    message.push(b[3 + i]);
                    assert(b@.subrange(3, 3 + i + 1) == b@.subrange(3, 3 + i).push(b@[3 + i]));
                }
                Ok(HelloWorldMessage::Hello { message })
            }
        } else {
            Err(MessageError::InvalidPayloadId)
        }
    }
}

/// Whether `buf` can be read by [`HelloWorldMessage::deserialize`] without
/// running past its end.
pub fn is_readable(buf: &[u8]) -> (r: bool)
    ensures
        r == readable(buf@),
{
    let n = buf.len();
    if n < 1 {
        return false;
    }
    if buf[0] == PAYLOAD_ID_ALIVE {
        n >= 33
    } else if buf[0] == PAYLOAD_ID_HELLO {
        if n < 3 {
            false
        } else {
            let length: usize = (buf[1] as usize) * 256 + (buf[2] as usize);
            length > HELLO_MESSAGE_MAX_LENGTH || n - 3 >= length
        }
    } else {
        true
    }
}

/// Reading back what was written gives the message back, whatever bytes
/// follow it.
pub proof fn lemma_decode_encode(m: MessageModel, rest: Seq<u8>)
    requires
        encodable(m),
    ensures
        readable(encode(m) + rest),
        decode(encode(m) + rest) == Ok::<MessageModel, MessageError>(m),
{
    let b = encode(m) + rest;
    match m {
        MessageModel::Alive { program_id } => {
            assert(b.subrange(1, 33) =~= program_id);
        },
        MessageModel::Hello { message } => {
            let n = message.len();
            assert(b[1] == (n / 256) as u8 && b[2] == (n % 256) as u8);
            assert(be_u16_value((n / 256) as u8, (n % 256) as u8) == n);
            assert(b.subrange(3, 3 + n as int) =~= message);
        },
    }
}

/// A payload that reads as a message starts with the bytes of that message,
/// and the message can be written again.
pub proof fn lemma_encode_decode(b: Seq<u8>)
    requires
        readable(b),
        decode(b) is Ok,
    ensures
        encodable(decode(b)->Ok_0),
        encode(decode(b)->Ok_0) == b.subrange(0, encode(decode(b)->Ok_0).len() as int),
{
    let m = decode(b)->Ok_0;
    if b[0] == PAYLOAD_ID_ALIVE {
        assert(encode(m) =~= b.subrange(0, 33));
    } else {
        let n = announced_length(b);
        assert(be_u16_bytes(n) =~= seq![b[1], b[2]]);
        assert(encode(m) =~= b.subrange(0, 3 + n as int));
    }
}

/// Two messages that can be written are written alike only if they are the
/// same message.
pub proof fn lemma_encode_injective(m1: MessageModel, m2: MessageModel)
    requires
        encodable(m1),
        encodable(m2),
        encode(m1) == encode(m2),
    ensures
        m1 == m2,
{
    lemma_decode_encode(m1, Seq::empty());
    lemma_decode_encode(m2, Seq::empty());
    assert(encode(m1) + Seq::<u8>::empty() =~= encode(m2) + Seq::<u8>::empty());
}

} // verus!
