use vstd::prelude::*;

use crate::errors::ApiError;

verus! {

/// What base-58 decoding returns for a given string: `None` where the string
/// is not a valid base-58 spelling, otherwise the bytes it spells. The result
/// is a function of the string alone.
pub uninterp spec fn base58_decode_spec(s: Seq<char>) -> Option<Seq<u8>>;

/// What base-58 encoding returns for a given byte sequence; a function of the
/// bytes alone.
pub uninterp spec fn base58_encode_spec(b: Seq<u8>) -> Seq<char>;

/// Whether the string decodes, under base-58, to exactly 32 bytes, and so
/// names an address.
pub open spec fn is_valid_address_string(s: Seq<char>) -> bool {
    base58_decode_spec(s) matches Some(b) && b.len() == 32
}

/// Relies on `bs58::decode(..).into_vec()` with its default (Bitcoin)
/// alphabet: it fails exactly on strings that are not valid base-58, and
/// otherwise returns the bytes the string spells.
#[verifier::external_body]
fn base58_decode(s: &str) -> (r: Option<Vec<u8>>)
    ensures
        r matches Some(v) ==> base58_decode_spec(s@) == Some(v@),
        r is None ==> base58_decode_spec(s@) is None,
{
    bs58::decode(s).into_vec().ok()
}

/// Relies on `bs58::encode(..).into_string()` with its default (Bitcoin)
/// alphabet: the encoding is a function of the bytes alone, decoding it gives
/// exactly those bytes back, and a non-empty input encodes to a non-empty
/// string.
#[verifier::external_body]
pub(crate) fn base58_encode(b: &[u8]) -> (r: String)
    ensures
        r@ == base58_encode_spec(b@),
        base58_decode_spec(r@) == Some(b@),
        b@.len() > 0 ==> r@.len() > 0,
{
    bs58::encode(b).into_string()
}

/// Relies on std's `<[u8; 32]>::try_from` on a byte slice: it succeeds
/// exactly when the slice is 32 long, and the array then holds the slice's
/// bytes.
#[verifier::external_body]
fn bytes32_of_slice(v: &[u8]) -> (r: Option<[u8; 32]>)
    ensures
        v@.len() == 32 <==> r is Some,
        r matches Some(a) ==> a@ == v@,
{
    <[u8; 32]>::try_from(v).ok()
}

/// Base-58-encodes a full keypair byte representation (secret and public
/// material together) for transport to the caller. There is no error path:
/// every byte sequence encodes, and decoding the result gives it back.
pub fn encode_secret(keypair_bytes: &[u8]) -> (r: String)
    ensures
        r@ == base58_encode_spec(keypair_bytes@),
        base58_decode_spec(r@) == Some(keypair_bytes@),
        keypair_bytes@.len() > 0 ==> r@.len() > 0,
{
    base58_encode(keypair_bytes)
}

/// A 32-byte account or program identifier: the decoded form of a base-58
/// address string.
#[derive(Clone, Copy, Debug)]
pub struct Address {
    bytes: [u8; 32],
}

impl View for Address {
    type V = Seq<u8>;

    closed spec fn view(&self) -> Seq<u8> {
        self.bytes@
    }
}

impl Address {
    /// Wraps 32 raw bytes as an address.
    pub fn from_array(bytes: [u8; 32]) -> (r: Address)
        ensures
            r@ == bytes@,
    {
        Address { bytes }
    }

    /// The 32 raw bytes of the address.
    pub fn to_array(&self) -> (r: [u8; 32])
        ensures
            r@ == self@,
    {
        self.bytes
    }

    /// Wraps raw bytes as an address; fails with `InvalidAddress` unless
    /// exactly 32 bytes are given.
    pub fn from_bytes(bytes: &Vec<u8>) -> (r: Result<Address, ApiError>)
        ensures
            bytes@.len() == 32 <==> r is Ok,
            r matches Ok(a) ==> a@ == bytes@,
            r matches Err(e) ==> e == ApiError::InvalidAddress,
    {
        match bytes32_of_slice(bytes.as_slice()) {
            Some(arr) => Ok(Address { bytes: arr }),
            None => Err(ApiError::InvalidAddress),
        }
    }

    /// Decodes a base-58 address string; fails with `InvalidAddress` exactly
    /// when the string is not valid base-58 or does not decode to 32 bytes.
    pub fn decode_address(s: &str) -> (r: Result<Address, ApiError>)
        ensures
            is_valid_address_string(s@) <==> r is Ok,
            r matches Ok(a) ==> base58_decode_spec(s@) == Some(a@),
            r matches Err(e) ==> e == ApiError::InvalidAddress,
    {
        match base58_decode(s) {
            Some(v) => Address::from_bytes(&v),
            None => Err(ApiError::InvalidAddress),
        }
    }

    /// Renders the address in its base-58 string form; decoding that string
    /// gives back exactly this address's bytes.
    pub fn encode(&self) -> (r: String)
        ensures
            r@ == base58_encode_spec(self@),
            base58_decode_spec(r@) == Some(self@),
            r@.len() > 0,
    {
        base58_encode(self.bytes.as_slice())
    }
}

} // verus!
