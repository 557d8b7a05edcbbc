#![allow(deprecated)]

use solana_token_api::codec::Address;
use solana_token_api::errors::ApiError;
use solana_token_api::handlers::{
    error_envelope, handle_keypair_generation, handle_token_creation, handle_token_mint,
    ok_envelope, TokenCreateRequest, TokenMintRequest,
};
use solana_token_api::instructions::{build_initialize_mint, build_mint_to};
use solana_sdk::signer::Signer;

const TOKEN_PROGRAM_ID: &str = "TokenkegQfeZyiNwAJbNbGKPFXCWuBvf9Ss623VQ5DA";
const RENT_SYSVAR_ID: &str = "SysvarRent111111111111111111111111111111111";

fn authority_bytes() -> [u8; 32] {
    let mut b = [0u8; 32];
    for i in 0..32 {
        b[i] = (i as u8) + 2;
    }
    b
}

fn mint_bytes() -> [u8; 32] {
    let mut b = [0u8; 32];
    for i in 0..32 {
        b[i] = (i as u8) + 100;
    }
    b
}

#[test]
fn keypair_generation_succeeds_with_nonempty_strings() {
    let r = handle_keypair_generation().unwrap();
    assert!(!r.pubkey.is_empty());
    assert!(!r.secret.is_empty());
    assert!(bs58::decode(&r.pubkey).into_vec().is_ok());
    assert!(bs58::decode(&r.secret).into_vec().is_ok());
}

#[test]
fn keypair_secret_decodes_to_64_bytes() {
    let r = handle_keypair_generation().unwrap();
    let bytes = bs58::decode(&r.secret).into_vec().unwrap();
    assert_eq!(bytes.len(), 64);
    assert_eq!(bs58::encode(&bytes[32..64]).into_string(), r.pubkey);
}

#[test]
fn keypair_secret_roundtrips_through_solana_keypair() {
    let r = handle_keypair_generation().unwrap();
    let bytes = bs58::decode(&r.secret).into_vec().unwrap();
    let kp = solana_sdk::signature::Keypair::try_from(bytes.as_slice()).unwrap();
    assert_eq!(kp.pubkey().to_string(), r.pubkey);
}

#[test]
fn token_create_returns_fixed_program_id_and_accounts() {
    let auth = bs58::encode(authority_bytes()).into_string();
    let mint = bs58::encode(mint_bytes()).into_string();
    let out = handle_token_creation(&TokenCreateRequest {
        mint_authority: auth,
        mint: mint.clone(),
        decimals: 9,
    })
    .unwrap();
    assert_eq!(out.program_id, TOKEN_PROGRAM_ID);
    assert_eq!(out.accounts.len(), 2);
    assert_eq!(out.accounts[0].pubkey, mint);
    assert!(!out.accounts[0].is_signer);
    assert!(out.accounts[0].is_writable);
    assert_eq!(out.accounts[1].pubkey, RENT_SYSVAR_ID);
    assert!(!out.accounts[1].is_signer);
    assert!(!out.accounts[1].is_writable);
    assert_eq!(out.instruction_data, "AAkCAwQFBgcICQoLDA0ODxAREhMUFRYXGBkaGxwdHh8gIQA=");
}

#[test]
fn token_create_succeeds_for_every_decimals_value() {
    for decimals in [0u8, 1, 9, 255] {
        let out = handle_token_creation(&TokenCreateRequest {
            mint_authority: bs58::encode(authority_bytes()).into_string(),
            mint: bs58::encode(mint_bytes()).into_string(),
            decimals,
        })
        .unwrap();
        assert_eq!(out.program_id, TOKEN_PROGRAM_ID);
        assert_eq!(out.accounts.len(), 2);
    }
}

#[test]
fn token_create_matches_spl_token_instruction() {
    let auth_pk =
        spl_token::solana_program::pubkey::Pubkey::new_from_array(authority_bytes());
    let mint_pk = spl_token::solana_program::pubkey::Pubkey::new_from_array(mint_bytes());
    let ix =
        spl_token::instruction::initialize_mint(&spl_token::id(), &mint_pk, &auth_pk, None, 9)
            .unwrap();
    let out = handle_token_creation(&TokenCreateRequest {
        mint_authority: bs58::encode(authority_bytes()).into_string(),
        mint: bs58::encode(mint_bytes()).into_string(),
        decimals: 9,
    })
    .unwrap();
    assert_eq!(out.program_id, ix.program_id.to_string());
    assert_eq!(out.accounts.len(), ix.accounts.len());
    for (got, want) in out.accounts.iter().zip(ix.accounts.iter()) {
        assert_eq!(got.pubkey, want.pubkey.to_string());
        assert_eq!(got.is_signer, want.is_signer);
        assert_eq!(got.is_writable, want.is_writable);
    }
    let engine = base64::engine::general_purpose::STANDARD;
    assert_eq!(out.instruction_data, base64::Engine::encode(&engine, &ix.data));
}

#[test]
fn token_create_rejects_non_base58_mint() {
    let r = handle_token_creation(&TokenCreateRequest {
        mint_authority: bs58::encode(authority_bytes()).into_string(),
        mint: "not-base58!!".to_string(),
        decimals: 9,
    });
    assert_eq!(r.unwrap_err(), ApiError::InvalidAddress);
}

#[test]
fn token_create_rejects_wrong_length_address() {
    let short = bs58::encode([5u8; 31]).into_string();
    let long = bs58::encode([5u8; 33]).into_string();
    for bad in [short, long] {
        let r = handle_token_creation(&TokenCreateRequest {
            mint_authority: bad.clone(),
            mint: bs58::encode(mint_bytes()).into_string(),
            decimals: 0,
        });
        assert_eq!(r.unwrap_err(), ApiError::InvalidAddress);
    }
}

#[test]
fn decode_address_accepts_exactly_32_byte_strings() {
    let s = bs58::encode(mint_bytes()).into_string();
    let a = Address::decode_address(&s).unwrap();
    assert_eq!(a.to_array(), mint_bytes());
    assert_eq!(a.encode(), s);
}

#[test]
fn decode_address_rejects_invalid_strings() {
    assert_eq!(Address::decode_address("0OIl").unwrap_err(), ApiError::InvalidAddress);
    assert_eq!(Address::decode_address("not-base58!!").unwrap_err(), ApiError::InvalidAddress);
    let short = bs58::encode([1u8; 16]).into_string();
    assert_eq!(Address::decode_address(&short).unwrap_err(), ApiError::InvalidAddress);
}

#[test]
fn encode_of_zero_address_is_all_ones() {
    let a = Address::from_array([0u8; 32]);
    assert_eq!(a.encode(), "11111111111111111111111111111111");
}

#[test]
fn token_mint_rejects_zero_amount() {
    let r = handle_token_mint(&TokenMintRequest {
        mint: bs58::encode(mint_bytes()).into_string(),
        destination: bs58::encode([9u8; 32]).into_string(),
        authority: bs58::encode(authority_bytes()).into_string(),
        amount: 0,
    });
    assert_eq!(r.unwrap_err(), ApiError::InvalidAmount);
}

#[test]
fn token_mint_succeeds_for_positive_amount() {
    let mint = bs58::encode(mint_bytes()).into_string();
    let dest = bs58::encode([9u8; 32]).into_string();
    let auth = bs58::encode(authority_bytes()).into_string();
    let out = handle_token_mint(&TokenMintRequest {
        mint: mint.clone(),
        destination: dest.clone(),
        authority: auth.clone(),
        amount: 1,
    })
    .unwrap();
    assert_eq!(out.program_id, TOKEN_PROGRAM_ID);
    assert_eq!(out.accounts.len(), 3);
    assert_eq!(out.accounts[0].pubkey, mint);
    assert!(!out.accounts[0].is_signer && out.accounts[0].is_writable);
    assert_eq!(out.accounts[1].pubkey, dest);
    assert!(!out.accounts[1].is_signer && out.accounts[1].is_writable);
    assert_eq!(out.accounts[2].pubkey, auth);
    assert!(out.accounts[2].is_signer && !out.accounts[2].is_writable);
    assert_eq!(out.instruction_data, "BwEAAAAAAAAA");
}

#[test]
fn token_mint_matches_spl_token_instruction() {
    let mint_pk = spl_token::solana_program::pubkey::Pubkey::new_from_array(mint_bytes());
    let dest_pk = spl_token::solana_program::pubkey::Pubkey::new_from_array([9u8; 32]);
    let auth_pk =
        spl_token::solana_program::pubkey::Pubkey::new_from_array(authority_bytes());
    let ix = spl_token::instruction::mint_to(
        &spl_token::id(),
        &mint_pk,
        &dest_pk,
        &auth_pk,
        &[],
        42,
    )
    .unwrap();
    let out = handle_token_mint(&TokenMintRequest {
        mint: bs58::encode(mint_bytes()).into_string(),
        destination: bs58::encode([9u8; 32]).into_string(),
        authority: bs58::encode(authority_bytes()).into_string(),
        amount: 42,
    })
    .unwrap();
    assert_eq!(out.program_id, ix.program_id.to_string());
    assert_eq!(out.accounts.len(), ix.accounts.len());
    for (got, want) in out.accounts.iter().zip(ix.accounts.iter()) {
        assert_eq!(got.pubkey, want.pubkey.to_string());
        assert_eq!(got.is_signer, want.is_signer);
        assert_eq!(got.is_writable, want.is_writable);
    }
    assert_eq!(out.instruction_data, "ByoAAAAAAAAA");
}

#[test]
fn token_mint_rejects_bad_destination() {
    let r = handle_token_mint(&TokenMintRequest {
        mint: bs58::encode(mint_bytes()).into_string(),
        destination: "!!".to_string(),
        authority: bs58::encode(authority_bytes()).into_string(),
        amount: 7,
    });
    assert_eq!(r.unwrap_err(), ApiError::InvalidAddress);
}

#[test]
fn builders_return_descriptors_with_fixed_program_id() {
    let auth = Address::from_array(authority_bytes());
    let mint = Address::from_array(mint_bytes());
    let dest = Address::from_array([9u8; 32]);
    let d1 = build_initialize_mint(&auth, &mint, 4).unwrap();
    assert_eq!(bs58::encode(d1.program_id.to_array()).into_string(), TOKEN_PROGRAM_ID);
    assert_eq!(d1.payload[0], 0);
    assert_eq!(d1.payload[1], 4);
    assert_eq!(&d1.payload[2..34], &authority_bytes()[..]);
    assert_eq!(d1.payload[34], 0);
    let d2 = build_mint_to(&mint, &dest, &auth, 3).unwrap();
    assert_eq!(bs58::encode(d2.program_id.to_array()).into_string(), TOKEN_PROGRAM_ID);
    assert_eq!(d2.payload, vec![7, 3, 0, 0, 0, 0, 0, 0, 0]);
    assert_eq!(build_mint_to(&mint, &dest, &auth, 0).unwrap_err(), ApiError::InvalidAmount);
}

#[test]
fn envelopes_carry_success_flag_and_message() {
    let ok = ok_envelope(5u32);
    assert!(ok.success);
    assert_eq!(ok.data, 5);
    let err = error_envelope(&ApiError::InvalidAmount);
    assert!(!err.success);
    assert_eq!(err.error, "Invalid amount");
    assert_eq!(ApiError::MalformedRequest.message(), "Missing required fields");
    assert_eq!(ApiError::InvalidAddress.message(), "Invalid address");
    assert_eq!(ApiError::InvalidProgramArgument.message(), "Invalid program argument");
    assert_eq!(ApiError::CryptoFailure.message(), "Cryptographic operation failed");
}
