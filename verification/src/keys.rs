use vstd::prelude::*;

use crate::codec::{base58_decode_spec, base58_encode_spec};

verus! {

/// The payload answered to a key-generation request: both strings are
/// base-58, `secret` spelling the full 64-byte keypair and `pubkey` its
/// public half.
#[derive(Debug)]
pub struct KeypairGenResponse {
    pub pubkey: String,
    pub secret: String,
}

/// Relies on `solana_sdk`'s `Keypair::new` and `Keypair::to_bytes`: a fresh
/// random keypair rendered as 64 bytes, the 32 secret-seed bytes followed by
/// the 32 public-key bytes. The value is random; only its length and layout
/// are fixed.
#[verifier::external_body]
fn fresh_keypair_bytes() -> (r: Vec<u8>)
    ensures
        r@.len() == 64,
{
    solana_sdk::signature::Keypair::new().to_bytes().to_vec()
}

/// Generates a fresh keypair and renders it for transport: `secret` is the
/// base-58 form of the full 64 keypair bytes, and `pubkey` is the base-58
/// form of their public half, so that decoding `secret` and re-encoding
/// bytes 32..64 of the result gives back `pubkey` (the round trip).
pub fn generate_keypair() -> (r: KeypairGenResponse)
    ensures
        base58_decode_spec(r.secret@) matches Some(b) && b.len() == 64
            && r.pubkey@ == base58_encode_spec(b.subrange(32, 64)),
        r.pubkey@.len() > 0,
        r.secret@.len() > 0,
{
    let bytes = fresh_keypair_bytes();
    let secret = crate::codec::encode_secret(bytes.as_slice());
    let public_half: &[u8] = &bytes.as_slice()[32..64];
    let pubkey = crate::codec::base58_encode(public_half);
    KeypairGenResponse { pubkey, secret }
}

} // verus!
