use mm_client::errors::ClientError;
use mm_client::instruction::{
    get_deposit_collateral_ix, get_init_open_orders_ix, get_init_user_ix, le64_bytes,
    TAG_DEPOSIT_COLLATERAL, TAG_INIT_OPEN_ORDERS, TAG_INIT_USER,
};
use mm_client::keys::{Pubkey, SPL_TOKEN_PROGRAM_ID};
use mm_client::txn::{BlockHash, TxnBuilder};

fn key_of(byte: u8) -> Pubkey {
    Pubkey::new(vec![byte; 32])
}

fn hash_of(byte: u8) -> BlockHash {
    BlockHash::new(vec![byte; 32]).unwrap()
}

#[test]
fn le64_matches_to_le_bytes() {
    let value: u64 = 0x1122_3344_5566_7788;
    assert_eq!(le64_bytes(value), value.to_le_bytes().to_vec());
    assert_eq!(le64_bytes(0), vec![0u8; 8]);
    assert_eq!(le64_bytes(u64::MAX), vec![0xffu8; 8]);
}

#[test]
fn deposit_instruction_has_the_expected_account_shape() {
    let program = key_of(1);
    let group = key_of(2);
    let user = key_of(3);
    let vault = key_of(4);
    let source = key_of(5);
    let signer = key_of(6);
    let ix = get_deposit_collateral_ix(&program, &group, &user, &vault, &source, &signer, 777);
    assert_eq!(ix.program_id.bytes, program.bytes);
    assert_eq!(ix.accounts.len(), 6);
    let expected: Vec<(Vec<u8>, bool, bool)> = vec![
        (group.bytes.clone(), false, false),
        (user.bytes.clone(), false, true),
        (vault.bytes.clone(), false, true),
        (signer.bytes.clone(), true, false),
        (source.bytes.clone(), false, true),
        (SPL_TOKEN_PROGRAM_ID.to_vec(), false, false),
    ];
    for (i, (key, is_signer, is_writable)) in expected.into_iter().enumerate() {
        assert_eq!(ix.accounts[i].pubkey.bytes, key);
        assert_eq!(ix.accounts[i].is_signer, is_signer);
        assert_eq!(ix.accounts[i].is_writable, is_writable);
    }
    let mut data = vec![TAG_DEPOSIT_COLLATERAL];
    data.extend_from_slice(&777u64.to_le_bytes());
    assert_eq!(ix.data, data);
}

#[test]
fn deposit_signer_is_the_sole_signer() {
    let ix = get_deposit_collateral_ix(
        &key_of(1),
        &key_of(2),
        &key_of(3),
        &key_of(4),
        &key_of(5),
        &key_of(6),
        1,
    );
    let signer_count = ix.accounts.iter().filter(|a| a.is_signer).count();
    assert_eq!(signer_count, 1);
    assert_eq!(ix.accounts[3].pubkey.bytes, key_of(6).bytes);
}

#[test]
fn init_open_orders_references_the_market_authority_read_only() {
    let trading = key_of(1);
    let dex = key_of(2);
    let group = key_of(3);
    let user = key_of(4);
    let market = key_of(5);
    let open_orders = key_of(6);
    let signer = key_of(7);
    let ix = get_init_open_orders_ix(&trading, &dex, &group, &user, &market, &open_orders, &signer)
        .unwrap();
    let authority = mm_client::derive::derive_dex_market_authority(&dex, &market).unwrap();
    assert_eq!(ix.accounts.len(), 6);
    assert_eq!(ix.accounts[5].pubkey.bytes, authority.bytes);
    assert!(!ix.accounts[5].is_signer);
    assert!(!ix.accounts[5].is_writable);
    assert_eq!(ix.data, vec![TAG_INIT_OPEN_ORDERS]);
}

#[test]
fn build_keeps_instruction_order() {
    let program = key_of(1);
    let payer = key_of(9);
    let mut builder = TxnBuilder::new();
    for amount in [10u64, 20, 30] {
        let ix = get_deposit_collateral_ix(
            &program,
            &key_of(2),
            &key_of(3),
            &key_of(4),
            &key_of(5),
            &payer,
            amount,
        );
        builder.add(ix);
    }
    let tx = builder.build(hash_of(8), &payer, None).unwrap();
    assert_eq!(tx.instructions.len(), 3);
    for (i, amount) in [10u64, 20, 30].into_iter().enumerate() {
        let mut data = vec![TAG_DEPOSIT_COLLATERAL];
        data.extend_from_slice(&amount.to_le_bytes());
        assert_eq!(tx.instructions[i].data, data);
    }
    assert_eq!(tx.blockhash.bytes, vec![8u8; 32]);
}

#[test]
fn build_rejects_zero_instructions() {
    let builder = TxnBuilder::new();
    let result = builder.build(hash_of(1), &key_of(9), None);
    assert!(matches!(result, Err(ClientError::EmptyTransaction)));
}

#[test]
fn required_signers_start_with_the_payer_and_hold_each_key_once() {
    let program = key_of(1);
    let payer = key_of(9);
    let owner = key_of(6);
    let mut builder = TxnBuilder::new();
    builder.add(get_deposit_collateral_ix(
        &program,
        &key_of(2),
        &key_of(3),
        &key_of(4),
        &key_of(5),
        &owner,
        5,
    ));
    builder.add(get_init_user_ix(&program, &key_of(2), &key_of(3), &owner, 255));
    let tx = builder.build(hash_of(7), &payer, None).unwrap();
    let signer_bytes: Vec<Vec<u8>> =
        tx.required_signers.iter().map(|k| k.bytes.clone()).collect();
    assert_eq!(signer_bytes, vec![payer.bytes.clone(), owner.bytes.clone()]);
}

#[test]
fn additional_signers_come_before_instruction_signers() {
    let program = key_of(1);
    let payer = key_of(9);
    let cosigner = key_of(8);
    let owner = key_of(6);
    let mut builder = TxnBuilder::new();
    builder.add(get_init_user_ix(&program, &key_of(2), &key_of(3), &owner, 254));
    let extras = vec![key_of(8)];
    let tx = builder.build(hash_of(7), &payer, Some(&extras)).unwrap();
    let signer_bytes: Vec<Vec<u8>> =
        tx.required_signers.iter().map(|k| k.bytes.clone()).collect();
    assert_eq!(
        signer_bytes,
        vec![payer.bytes.clone(), cosigner.bytes.clone(), owner.bytes.clone()]
    );
}

#[test]
fn init_user_instruction_data_carries_tag_and_bump() {
    let ix = get_init_user_ix(&key_of(1), &key_of(2), &key_of(3), &key_of(4), 253);
    assert_eq!(ix.data, vec![TAG_INIT_USER, 253]);
    assert!(ix.accounts[2].is_signer);
    assert_eq!(ix.accounts[2].pubkey.bytes, key_of(4).bytes);
}
