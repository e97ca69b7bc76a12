//! Normalization of signed transaction envelopes of three generations into one
//! canonical record identified by the Keccak-256 digest of its wire bytes, and
//! the field layout of a transaction's lifecycle status when serialized.

pub mod codec;
pub mod envelope;
pub mod laws;
pub mod status;
pub mod transaction;
pub mod word;
