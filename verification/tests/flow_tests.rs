use mm_client::flows::init_cypher_user;
use mm_client::instruction::TAG_INIT_USER;
use mm_client::keys::Pubkey;
use mm_client::submit::{
    confirm_outcome, start_submission, Confirmation, PollEvent, SendResult,
};
use mm_client::txn::BlockHash;

fn key_of(byte: u8) -> Pubkey {
    Pubkey::new(vec![byte; 32])
}

#[test]
fn init_user_flow_targets_the_derived_account_and_commits() {
    let trading_program = key_of(1);
    let group = key_of(2);
    let owner = key_of(3);
    let blockhash = BlockHash::new(vec![4u8; 32]).unwrap();

    let tx = init_cypher_user(&trading_program, &group, &owner, blockhash).unwrap();

    assert_eq!(tx.instructions.len(), 1);
    let ix = &tx.instructions[0];
    assert_eq!(ix.program_id.bytes, trading_program.bytes);

    let (expected_user, expected_bump) = solana_sdk::pubkey::Pubkey::find_program_address(
        &[&group.bytes, &owner.bytes],
        &solana_sdk::pubkey::Pubkey::new_from_array([1u8; 32]),
    );
    assert_eq!(ix.accounts.len(), 4);
    assert_eq!(ix.accounts[1].pubkey.bytes, expected_user.to_bytes().to_vec());
    assert!(ix.accounts[1].is_writable);
    assert!(!ix.accounts[1].is_signer);
    assert_eq!(ix.accounts[2].pubkey.bytes, owner.bytes);
    assert!(ix.accounts[2].is_signer);
    assert_eq!(ix.data, vec![TAG_INIT_USER, expected_bump]);

    let signer_bytes: Vec<Vec<u8>> =
        tx.required_signers.iter().map(|k| k.bytes.clone()).collect();
    assert_eq!(signer_bytes, vec![owner.bytes.clone()]);

    // Submit against a test double that accepts every transaction.
    let state = start_submission(SendResult::Accepted, 8).unwrap();
    let outcome = confirm_outcome(state, &vec![PollEvent::NotSeen, PollEvent::Reached(1234)]);
    assert_eq!(outcome, Confirmation::Committed(1234));
}
