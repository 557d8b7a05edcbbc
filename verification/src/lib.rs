//! A small Solana-style token service core: an address/key codec, pure
//! instruction builders for token-mint initialization and mint-to, and the
//! request-handling layer that maps validated requests to instruction
//! descriptors or to a uniform error envelope.

pub mod codec;
pub mod errors;
pub mod handlers;
pub mod instructions;
pub mod keys;
