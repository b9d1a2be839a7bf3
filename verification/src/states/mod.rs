//! The accounts that the program owns, as plain values. Addresses are the
//! 32 bytes of a Solana public key.
pub mod config;
pub mod foreign_emitter;
pub mod received;
pub mod wormhole_emitter;
