//! Verified core of a Wormhole "hello world" messaging program for Solana:
//! the wire format of its messages and the decisions made by its
//! instructions, stated over plain values.

pub mod common;
pub mod contexts;
pub mod message;
pub mod states;
pub mod wormhole;

pub use common::HelloWorldError;
pub use contexts::initialize::{Initialize, InitializeBumps};
pub use contexts::receive_message::{PostedMessage, ReceiveMessage};
pub use contexts::register_emitter::RegisterEmitter;
pub use contexts::send_message::{SendMessage, SendMessageBumps};
pub use contexts::{CpiPlan, FeeTransfer, PostMessageRequest};
pub use message::{HelloWorldMessage, MessageError, HELLO_MESSAGE_MAX_LENGTH};
pub use states::config::{Config, WormholeAddresses};
pub use states::foreign_emitter::ForeignEmitter;
pub use states::received::{Received, MESSAGE_MAX_LENGTH};
pub use states::wormhole_emitter::WormholeEmitter;
pub use wormhole::{Finality, SEED_PREFIX_SENT};
