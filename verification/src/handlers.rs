use vstd::prelude::*;

use crate::codec::{base58_decode_spec, base58_encode_spec, is_valid_address_string, Address};
use crate::errors::ApiError;
use crate::instructions::{
    build_initialize_mint, build_mint_to, init_mint_payload, mint_to_payload,
    rent_sysvar_id_bytes, token_program_id_bytes, InstructionDescriptor,
};
use crate::keys::{generate_keypair, KeypairGenResponse};

verus! {

/// What the standard padded base-64 encoding returns for a given byte
/// sequence; a function of the bytes alone.
pub uninterp spec fn base64_encode_spec(b: Seq<u8>) -> Seq<char>;

/// Relies on `base64`'s STANDARD engine (padded): the encoding is a function
/// of the bytes alone, four characters long for every three bytes, rounded
/// up.
#[verifier::external_body]
fn base64_encode(b: &[u8]) -> (r: String)
    ensures
        r@ == base64_encode_spec(b@),
        r@.len() == 4 * ((b@.len() + 2) / 3),
{
    base64::Engine::encode(&base64::engine::general_purpose::STANDARD, b)
}

/// A request to initialize a new token mint, with both addresses still in
/// their base-58 string form.
#[derive(Debug)]
pub struct TokenCreateRequest {
    pub mint_authority: String,
    pub mint: String,
    pub decimals: u8,
}

/// A request to mint tokens to a destination account, with the addresses
/// still in their base-58 string form.
#[derive(Debug)]
pub struct TokenMintRequest {
    pub mint: String,
    pub destination: String,
    pub authority: String,
    pub amount: u64,
}

/// One account of an instruction as transported in a response: the base-58
/// address string and the role flags.
#[derive(Debug)]
pub struct InstructionAccountDetails {
    pub pubkey: String,
    pub is_signer: bool,
    pub is_writable: bool,
}

/// An instruction descriptor as transported in a response: base-58 program
/// id, accounts with base-58 addresses, and the payload in base-64.
#[derive(Debug)]
pub struct InstructionOutput {
    pub program_id: String,
    pub accounts: Vec<InstructionAccountDetails>,
    pub instruction_data: String,
}

/// A request to sign a message with a secret key. Defined for the future
/// sign endpoint; no route reaches it yet.
#[derive(Debug)]
pub struct MessageSignRequest {
    pub message: String,
    pub secret: String,
}

/// A request to verify a signature over a message. Defined for the future
/// verify endpoint; no route reaches it yet.
#[derive(Debug)]
pub struct MessageVerifyRequest {
    pub message: String,
    pub signature: String,
    pub pubkey: String,
}

/// The payload answered to a sign request. Defined for the future sign
/// endpoint; no route reaches it yet.
#[derive(Debug)]
pub struct MessageSignResponse {
    pub signature: String,
    pub public_key: String,
    pub message: String,
}

/// The payload answered to a verify request. Defined for the future verify
/// endpoint; no route reaches it yet.
#[derive(Debug)]
pub struct MessageVerifyResponse {
    pub valid: bool,
    pub message: String,
    pub pubkey: String,
}

/// The success envelope wrapped around every successful response payload.
pub struct ServiceResponse<T> {
    pub success: bool,
    pub data: T,
}

/// The failure envelope wrapped around every failed response.
#[derive(Debug)]
pub struct ServiceErrorResponse {
    pub success: bool,
    pub error: String,
}

/// Wraps a success payload in the response envelope.
pub fn ok_envelope<T>(data: T) -> (r: ServiceResponse<T>)
    ensures
        r.success,
        r.data == data,
{
    ServiceResponse { success: true, data }
}

/// Wraps a failure in the error envelope, carrying the error's message.
pub fn error_envelope(e: &ApiError) -> (r: ServiceErrorResponse)
    ensures
        !r.success,
        r.error@ == e.message_spec(),
{
    ServiceErrorResponse { success: false, error: e.message() }
}

/// How a rendered instruction relates to its descriptor: the program id and
/// every account address re-encoded to base-58, order and role flags kept,
/// and the payload re-encoded to base-64.
pub open spec fn is_rendering_of(out: InstructionOutput, d: InstructionDescriptor) -> bool {
    &&& out.program_id@ == base58_encode_spec(d.program_id@)
    &&& out.accounts@.len() == d.accounts@.len()
    &&& forall|i: int|
        0 <= i < d.accounts@.len() ==> {
            &&& (#[trigger] out.accounts@[i]).pubkey@ == base58_encode_spec(d.accounts@[i].address@)
            &&& out.accounts@[i].is_signer == d.accounts@[i].is_signer
            &&& out.accounts@[i].is_writable == d.accounts@[i].is_writable
        }
    &&& out.instruction_data@ == base64_encode_spec(d.payload@)
}

/// Renders a descriptor for transport, re-encoding each address to base-58
/// and the payload to base-64, keeping the account order and role flags.
pub fn render_descriptor(d: &InstructionDescriptor) -> (r: InstructionOutput)
    ensures
        is_rendering_of(r, *d),
{
    let mut accounts: Vec<InstructionAccountDetails> = Vec::new();
    let n = d.accounts.len();
    let mut i: usize = 0;
    while i < n
        invariant
            n == d.accounts@.len(),
            i <= n,
            accounts@.len() == i,
            forall|j: int|
                0 <= j < i ==> {
                    &&& (#[trigger] accounts@[j]).pubkey@ == base58_encode_spec(
                        d.accounts@[j].address@,
                    )
                    &&& accounts@[j].is_signer == d.accounts@[j].is_signer
                    &&& accounts@[j].is_writable == d.accounts@[j].is_writable
                },
        decreases n - i,
    {
        let acc = &d.accounts[i];
        accounts.push(InstructionAccountDetails {
            pubkey: acc.address.encode(),
            is_signer: acc.is_signer,
            is_writable: acc.is_writable,
        });
        i = i + 1;
    }
    InstructionOutput {
        program_id: d.program_id.encode(),
        accounts,
        instruction_data: base64_encode(d.payload.as_slice()),
    }
}

/// Handles a key-generation request: always succeeds with a fresh keypair,
/// whose secret decodes back to 64 bytes and whose pubkey is the base-58
/// form of the public half of those bytes.
pub fn handle_keypair_generation() -> (r: Result<KeypairGenResponse, ApiError>)
    ensures
        r is Ok,
        r matches Ok(k) ==> {
            &&& base58_decode_spec(k.secret@) matches Some(b) && b.len() == 64
                && k.pubkey@ == base58_encode_spec(b.subrange(32, 64))
            &&& k.pubkey@.len() > 0
            &&& k.secret@.len() > 0
        },
{
    Ok(generate_keypair())
}

/// Handles a mint-initialization request: decodes both address strings and
/// renders the built descriptor. Fails with `InvalidAddress` exactly when
/// one of the address strings is not base-58 or not 32 bytes long.
pub fn handle_token_creation(req: &TokenCreateRequest) -> (r: Result<InstructionOutput, ApiError>)
    ensures
        r is Ok <==> is_valid_address_string(req.mint_authority@) && is_valid_address_string(
            req.mint@,
        ),
        r matches Err(e) ==> e == ApiError::InvalidAddress,
        r matches Ok(out) ==> {
            &&& out.program_id@ == base58_encode_spec(token_program_id_bytes())
            &&& out.accounts@.len() == 2
            &&& out.accounts@[0].pubkey@ == base58_encode_spec(
                base58_decode_spec(req.mint@).unwrap(),
            )
            &&& !out.accounts@[0].is_signer
            &&& out.accounts@[0].is_writable
            &&& out.accounts@[1].pubkey@ == base58_encode_spec(rent_sysvar_id_bytes())
            &&& !out.accounts@[1].is_signer
            &&& !out.accounts@[1].is_writable
            &&& out.instruction_data@ == base64_encode_spec(
                init_mint_payload(base58_decode_spec(req.mint_authority@).unwrap(), req.decimals),
            )
        },
{
    let mint_authority = Address::decode_address(req.mint_authority.as_str())?;
    let mint = Address::decode_address(req.mint.as_str())?;
    let d = match build_initialize_mint(&mint_authority, &mint, req.decimals) {
        Ok(d) => d,
        Err(e) => {
            return Err(e);
        },
    };
    Ok(render_descriptor(&d))
}

/// Handles a mint-to request: rejects a zero amount with `InvalidAmount`
/// before looking at the addresses, then decodes the three address strings
/// and renders the built descriptor; a bad address fails with
/// `InvalidAddress`.
pub fn handle_token_mint(req: &TokenMintRequest) -> (r: Result<InstructionOutput, ApiError>)
    ensures
        req.amount == 0 ==> r == Result::<InstructionOutput, ApiError>::Err(
            ApiError::InvalidAmount,
        ),
        req.amount != 0 ==> (r is Ok <==> {
            &&& is_valid_address_string(req.mint@)
            &&& is_valid_address_string(req.destination@)
            &&& is_valid_address_string(req.authority@)
        }),
        req.amount != 0 && r is Err ==> r == Result::<InstructionOutput, ApiError>::Err(
            ApiError::InvalidAddress,
        ),
        r matches Ok(out) ==> {
            &&& out.program_id@ == base58_encode_spec(token_program_id_bytes())
            &&& out.accounts@.len() == 3
            &&& out.accounts@[0].pubkey@ == base58_encode_spec(
                base58_decode_spec(req.mint@).unwrap(),
            )
            &&& !out.accounts@[0].is_signer
            &&& out.accounts@[0].is_writable
            &&& out.accounts@[1].pubkey@ == base58_encode_spec(
                base58_decode_spec(req.destination@).unwrap(),
            )
            &&& !out.accounts@[1].is_signer
            &&& out.accounts@[1].is_writable
            &&& out.accounts@[2].pubkey@ == base58_encode_spec(
                base58_decode_spec(req.authority@).unwrap(),
            )
            &&& out.accounts@[2].is_signer
            &&& !out.accounts@[2].is_writable
            &&& out.instruction_data@ == base64_encode_spec(mint_to_payload(req.amount))
        },
{
    if req.amount == 0 {
        return Err(ApiError::InvalidAmount);
    }
    let mint = Address::decode_address(req.mint.as_str())?;
    let destination = Address::decode_address(req.destination.as_str())?;
    let authority = Address::decode_address(req.authority.as_str())?;
    let d = match build_mint_to(&mint, &destination, &authority, req.amount) {
        Ok(d) => d,
        Err(e) => {
            return Err(e);
        },
    };
    Ok(render_descriptor(&d))
}

} // verus!
