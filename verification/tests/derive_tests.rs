use std::str::FromStr;

use mm_client::derive::{
    derive_dex_market_authority, derive_quote_token_address, derive_user_account_address,
    is_off_curve,
};
use mm_client::keys::{
    associated_token_program_id, quote_mint_id, spl_token_program_id, Pubkey,
    ASSOCIATED_TOKEN_PROGRAM_ID, QUOTE_MINT_ID, SPL_TOKEN_PROGRAM_ID,
};

fn key_of(byte: u8) -> Pubkey {
    Pubkey::new(vec![byte; 32])
}

#[test]
fn well_known_ids_match_their_base58_form() {
    let spl = solana_sdk::pubkey::Pubkey::from_str("TokenkegQfeZyiNwAJbNbGKPFXCWuBvf9Ss623VQ5DA")
        .unwrap();
    assert_eq!(SPL_TOKEN_PROGRAM_ID, spl.to_bytes());
    let ata = solana_sdk::pubkey::Pubkey::from_str("ATokenGPvbdGVxr1b2hvZbsiqW5xWH25efTNsLJA8knL")
        .unwrap();
    assert_eq!(ASSOCIATED_TOKEN_PROGRAM_ID, ata.to_bytes());
    let usdc = solana_sdk::pubkey::Pubkey::from_str("EPjFWdd5AufqSSqeM2qN1xzybapC8G4wEGGkZwyTDt1v")
        .unwrap();
    assert_eq!(QUOTE_MINT_ID, usdc.to_bytes());
    assert_eq!(spl_token_program_id().bytes, spl.to_bytes().to_vec());
    assert_eq!(associated_token_program_id().bytes, ata.to_bytes().to_vec());
    assert_eq!(quote_mint_id().bytes, usdc.to_bytes().to_vec());
}

#[test]
fn quote_token_derivation_is_deterministic() {
    let wallet = key_of(7);
    let first = derive_quote_token_address(&wallet).unwrap();
    let second = derive_quote_token_address(&wallet).unwrap();
    assert_eq!(first.bytes, second.bytes);
}

#[test]
fn quote_token_derivation_matches_the_network_computation() {
    let wallet = key_of(7);
    let derived = derive_quote_token_address(&wallet).unwrap();
    let expected = solana_sdk::pubkey::Pubkey::find_program_address(
        &[
            &wallet.bytes,
            &SPL_TOKEN_PROGRAM_ID,
            &QUOTE_MINT_ID,
        ],
        &solana_sdk::pubkey::Pubkey::new_from_array(ASSOCIATED_TOKEN_PROGRAM_ID),
    )
    .0;
    assert_eq!(derived.bytes, expected.to_bytes().to_vec());
    assert_ne!(derived.bytes, wallet.bytes);
}

#[test]
fn derived_addresses_are_off_curve() {
    let wallet = key_of(9);
    let derived = derive_quote_token_address(&wallet).unwrap();
    assert!(is_off_curve(&derived));
}

#[test]
fn wallet_keys_are_on_curve() {
    let wallet_key = solana_sdk::signer::Signer::pubkey(&solana_sdk::signature::Keypair::new());
    let wallet = Pubkey::new(wallet_key.to_bytes().to_vec());
    assert!(!is_off_curve(&wallet));
}

#[test]
fn user_account_derivation_returns_address_and_bump() {
    let program = key_of(1);
    let group = key_of(2);
    let owner = key_of(3);
    let (address, bump) = derive_user_account_address(&program, &group, &owner).unwrap();
    let (expected, expected_bump) = solana_sdk::pubkey::Pubkey::find_program_address(
        &[&group.bytes, &owner.bytes],
        &solana_sdk::pubkey::Pubkey::new_from_array([1u8; 32]),
    );
    assert_eq!(address.bytes, expected.to_bytes().to_vec());
    assert_eq!(bump, expected_bump);
    let (again, bump_again) = derive_user_account_address(&program, &group, &owner).unwrap();
    assert_eq!(address.bytes, again.bytes);
    assert_eq!(bump, bump_again);
}

#[test]
fn market_authority_derivation_matches_the_network_computation() {
    let dex_program = key_of(4);
    let market = key_of(5);
    let authority = derive_dex_market_authority(&dex_program, &market).unwrap();
    let expected = solana_sdk::pubkey::Pubkey::find_program_address(
        &[&market.bytes],
        &solana_sdk::pubkey::Pubkey::new_from_array([4u8; 32]),
    )
    .0;
    assert_eq!(authority.bytes, expected.to_bytes().to_vec());
}
