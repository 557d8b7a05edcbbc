use vstd::prelude::*;

use crate::codec::Address;
use crate::errors::ApiError;

verus! {

/// One account's role within an instruction: its address, whether it must
/// co-sign the transaction, and whether the instruction may write to it. The
/// position of an account within an instruction's list is significant.
#[derive(Debug)]
pub struct AccountRef {
    pub address: Address,
    pub is_signer: bool,
    pub is_writable: bool,
}

/// A single not-yet-submitted on-chain instruction: the target program, the
/// ordered account list, and the opaque payload handed to the program.
#[derive(Debug)]
pub struct InstructionDescriptor {
    pub program_id: Address,
    pub accounts: Vec<AccountRef>,
    pub payload: Vec<u8>,
}

/// The token program's fixed id: the 32 bytes that the base-58 string
/// "TokenkegQfeZyiNwAJbNbGKPFXCWuBvf9Ss623VQ5DA" decodes to.
pub open spec fn token_program_id_bytes() -> Seq<u8> {
    seq![
        6u8, 221u8, 246u8, 225u8, 215u8, 101u8, 161u8, 147u8, 217u8, 203u8, 225u8, 70u8, 206u8,
        235u8, 121u8, 172u8, 28u8, 180u8, 133u8, 237u8, 95u8, 91u8, 55u8, 145u8, 58u8, 140u8,
        245u8, 133u8, 126u8, 255u8, 0u8, 169u8,
    ]
}

/// The rent sysvar's fixed id: the 32 bytes that the base-58 string
/// "SysvarRent111111111111111111111111111111111" decodes to.
pub open spec fn rent_sysvar_id_bytes() -> Seq<u8> {
    seq![
        6u8, 167u8, 213u8, 23u8, 25u8, 44u8, 92u8, 81u8, 33u8, 140u8, 201u8, 76u8, 61u8, 74u8,
        241u8, 127u8, 88u8, 218u8, 238u8, 8u8, 155u8, 161u8, 253u8, 68u8, 227u8, 219u8, 217u8,
        138u8, 0u8, 0u8, 0u8, 0u8,
    ]
}

/// The packed payload of a mint-initialization: tag 0, the decimals, the 32
/// mint-authority bytes, then 0 for the absent freeze authority.
pub open spec fn init_mint_payload(mint_authority: Seq<u8>, decimals: u8) -> Seq<u8> {
    seq![0u8, decimals] + mint_authority + seq![0u8]
}

/// The packed payload of a mint-to: tag 7, then the amount in little-endian.
pub open spec fn mint_to_payload(amount: u64) -> Seq<u8> {
    seq![7u8] + vstd::bytes::spec_u64_to_le_bytes(amount)
}

/// The exact descriptor that mint-initialization produces for the given
/// authority and mint bytes and decimals: the token program as target, the
/// mint account (writable, not a signer) followed by the rent sysvar
/// (read-only, not a signer), and the packed initialize-mint payload.
pub open spec fn is_init_mint_descriptor(
    d: InstructionDescriptor,
    mint_authority: Seq<u8>,
    mint: Seq<u8>,
    decimals: u8,
) -> bool {
    &&& d.program_id@ == token_program_id_bytes()
    &&& d.accounts@.len() == 2
    &&& d.accounts@[0].address@ == mint
    &&& !d.accounts@[0].is_signer
    &&& d.accounts@[0].is_writable
    &&& d.accounts@[1].address@ == rent_sysvar_id_bytes()
    &&& !d.accounts@[1].is_signer
    &&& !d.accounts@[1].is_writable
    &&& d.payload@ == init_mint_payload(mint_authority, decimals)
}

/// The exact descriptor that mint-to produces for the given mint,
/// destination and authority bytes and amount: the token program as target,
/// the mint and destination accounts (both writable, not signers) followed
/// by the authority (read-only, a signer, since no multisig signer set is
/// passed), and the packed mint-to payload.
pub open spec fn is_mint_to_descriptor(
    d: InstructionDescriptor,
    mint: Seq<u8>,
    destination: Seq<u8>,
    authority: Seq<u8>,
    amount: u64,
) -> bool {
    &&& d.program_id@ == token_program_id_bytes()
    &&& d.accounts@.len() == 3
    &&& d.accounts@[0].address@ == mint
    &&& !d.accounts@[0].is_signer
    &&& d.accounts@[0].is_writable
    &&& d.accounts@[1].address@ == destination
    &&& !d.accounts@[1].is_signer
    &&& d.accounts@[1].is_writable
    &&& d.accounts@[2].address@ == authority
    &&& d.accounts@[2].is_signer
    &&& !d.accounts@[2].is_writable
    &&& d.payload@ == mint_to_payload(amount)
}

/// Relies on `spl_token::instruction::initialize_mint`, called with the
/// token program's own id and no freeze authority. Its source shows that it
/// then always succeeds and returns an instruction targeting the token
/// program, whose accounts are the mint (writable, not a signer) and the
/// rent sysvar (read-only, not a signer), and whose data packs tag 0, the
/// decimals, the mint authority and an absent freeze authority.
#[allow(deprecated)]
#[verifier::external_body]
fn spl_initialize_mint(
    mint: &Address,
    mint_authority: &Address,
    decimals: u8,
) -> (r: Result<InstructionDescriptor, ApiError>)
    ensures
        r is Ok,
        r matches Ok(d) ==> is_init_mint_descriptor(d, mint_authority@, mint@, decimals),
{
    let m = spl_token::solana_program::pubkey::Pubkey::new_from_array(mint.to_array());
    let a = spl_token::solana_program::pubkey::Pubkey::new_from_array(mint_authority.to_array());
    match spl_token::instruction::initialize_mint(&spl_token::id(), &m, &a, None, decimals) {
        Ok(ix) => Ok(InstructionDescriptor {
            program_id: Address::from_array(ix.program_id.to_bytes()),
            accounts: ix.accounts.into_iter().map(|c| AccountRef {
                address: Address::from_array(c.pubkey.to_bytes()),
                is_signer: c.is_signer,
                is_writable: c.is_writable,
            }).collect(),
            payload: ix.data,
        }),
        Err(_) => Err(ApiError::InvalidProgramArgument),
    }
}

/// Relies on `spl_token::instruction::mint_to`, called with the token
/// program's own id and an empty multisig signer set. Its source shows that
/// it then always succeeds and returns an instruction targeting the token
/// program, whose accounts are the mint and the destination (both writable,
/// not signers) and the authority (read-only, a signer), and whose data
/// packs tag 7 and the little-endian amount.
#[allow(deprecated)]
#[verifier::external_body]
fn spl_mint_to(
    mint: &Address,
    destination: &Address,
    authority: &Address,
    amount: u64,
) -> (r: Result<InstructionDescriptor, ApiError>)
    ensures
        r is Ok,
        r matches Ok(d) ==> is_mint_to_descriptor(d, mint@, destination@, authority@, amount),
{
    let m = spl_token::solana_program::pubkey::Pubkey::new_from_array(mint.to_array());
    let d = spl_token::solana_program::pubkey::Pubkey::new_from_array(destination.to_array());
    let o = spl_token::solana_program::pubkey::Pubkey::new_from_array(authority.to_array());
    match spl_token::instruction::mint_to(&spl_token::id(), &m, &d, &o, &[], amount) {
        Ok(ix) => Ok(InstructionDescriptor {
            program_id: Address::from_array(ix.program_id.to_bytes()),
            accounts: ix.accounts.into_iter().map(|c| AccountRef {
                address: Address::from_array(c.pubkey.to_bytes()),
                is_signer: c.is_signer,
                is_writable: c.is_writable,
            }).collect(),
            payload: ix.data,
        }),
        Err(_) => Err(ApiError::InvalidProgramArgument),
    }
}

/// Builds the mint-initialization instruction for a new mint: always
/// succeeds for already-decoded addresses and any decimals value, and the
/// descriptor is fully determined by the inputs. No freeze authority is ever
/// set.
pub fn build_initialize_mint(
    mint_authority: &Address,
    mint: &Address,
    decimals: u8,
) -> (r: Result<InstructionDescriptor, ApiError>)
    ensures
        r is Ok,
        r matches Ok(d) ==> is_init_mint_descriptor(d, mint_authority@, mint@, decimals),
{
    spl_initialize_mint(mint, mint_authority, decimals)
}

/// Builds the mint-to instruction: fails with `InvalidAmount` exactly when
/// the amount is zero, and otherwise returns the descriptor fully determined
/// by the inputs. Multisig mint authorities are unsupported: the signer set
/// handed to the collaborator is always empty.
pub fn build_mint_to(
    mint: &Address,
    destination: &Address,
    authority: &Address,
    amount: u64,
) -> (r: Result<InstructionDescriptor, ApiError>)
    ensures
        amount == 0 <==> r is Err,
        r matches Err(e) ==> e == ApiError::InvalidAmount,
        r matches Ok(d) ==> is_mint_to_descriptor(d, mint@, destination@, authority@, amount),
{
    if amount == 0 {
        return Err(ApiError::InvalidAmount);
    }
    spl_mint_to(mint, destination, authority, amount)
}

/// Determinism of mint-initialization: any two descriptors built from the
/// same authority, mint and decimals target the token program's fixed id and
/// agree on the account list's length, addresses and role flags, and on the
/// payload.
pub proof fn lemma_initialize_mint_deterministic(
    d1: InstructionDescriptor,
    d2: InstructionDescriptor,
    mint_authority: Seq<u8>,
    mint: Seq<u8>,
    decimals: u8,
)
    requires
        is_init_mint_descriptor(d1, mint_authority, mint, decimals),
        is_init_mint_descriptor(d2, mint_authority, mint, decimals),
    ensures
        d1.program_id@ == token_program_id_bytes(),
        d2.program_id@ == token_program_id_bytes(),
        d1.accounts@.len() == d2.accounts@.len(),
        forall|i: int|
            0 <= i < d1.accounts@.len() ==> {
                &&& #[trigger] d1.accounts@[i].address@ == d2.accounts@[i].address@
                &&& d1.accounts@[i].is_signer == d2.accounts@[i].is_signer
                &&& d1.accounts@[i].is_writable == d2.accounts@[i].is_writable
            },
        d1.payload@ == d2.payload@,
{
    assert forall|i: int| 0 <= i < d1.accounts@.len() implies {
        &&& #[trigger] d1.accounts@[i].address@ == d2.accounts@[i].address@
        &&& d1.accounts@[i].is_signer == d2.accounts@[i].is_signer
        &&& d1.accounts@[i].is_writable == d2.accounts@[i].is_writable
    } by {
        assert(i == 0 || i == 1);
    }
}

} // verus!
