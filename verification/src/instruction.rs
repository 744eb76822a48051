//! Instructions: immutable units describing the program to execute, an
//! ordered account list with read/write and signer flags, and an opaque
//! argument payload. The account order and flags per action are a wire
//! contract with the target program and are stated here bit for bit.

use vstd::prelude::*;
use crate::errors::ClientError;
use crate::keys::{Pubkey, SPL_TOKEN_PROGRAM_ID};
use crate::derive::{pda_of, market_authority_seeds, derive_dex_market_authority};

verus! {

/// The system program that creates fresh accounts (the all-zero address).
pub const SYSTEM_PROGRAM_ID: [u8; 32] = [
    0, 0, 0, 0, 0, 0, 0, 0, 0, 0, 0, 0, 0, 0, 0, 0,
    0, 0, 0, 0, 0, 0, 0, 0, 0, 0, 0, 0, 0, 0, 0, 0,
];

/// Payload tag of the register-user action.
pub const TAG_INIT_USER: u8 = 1;

/// Payload tag of the deposit-collateral action.
pub const TAG_DEPOSIT_COLLATERAL: u8 = 2;

/// Payload tag of the initialize-order-account action.
pub const TAG_INIT_OPEN_ORDERS: u8 = 3;

/// One account reference inside an instruction, tagged read/write and
/// signer/non-signer.
pub struct AccountMeta {
    pub pubkey: Pubkey,
    pub is_signer: bool,
    pub is_writable: bool,
}

/// Mathematical image of an account reference.
pub ghost struct AccountMetaView {
    pub key: Seq<u8>,
    pub signer: bool,
    pub writable: bool,
}

impl View for AccountMeta {
    type V = AccountMetaView;

    open spec fn view(&self) -> AccountMetaView {
        AccountMetaView { key: self.pubkey@, signer: self.is_signer, writable: self.is_writable }
    }
}

impl AccountMeta {
    pub open spec fn wf(&self) -> bool {
        self.pubkey.wf()
    }

    pub fn new(key: &Pubkey, is_signer: bool, is_writable: bool) -> (r: AccountMeta)
        ensures
            r@ == (AccountMetaView { key: key@, signer: is_signer, writable: is_writable }),
            key.wf() ==> r.wf(),
    {
        AccountMeta { pubkey: key.clone(), is_signer, is_writable }
    }
}

/// An unsigned unit of intended state change: the program that must execute
/// it, the ordered account list, and the argument payload. Instructions carry
/// no signatures.
pub struct Instruction {
    pub program_id: Pubkey,
    pub accounts: Vec<AccountMeta>,
    pub data: Vec<u8>,
}

/// Mathematical image of an instruction.
pub ghost struct InstructionView {
    pub program: Seq<u8>,
    pub accounts: Seq<AccountMetaView>,
    pub data: Seq<u8>,
}

impl View for Instruction {
    type V = InstructionView;

    open spec fn view(&self) -> InstructionView {
        InstructionView {
            program: self.program_id@,
            accounts: Seq::new(self.accounts@.len(), |i: int| self.accounts@[i]@),
            data: self.data@,
        }
    }
}

impl Instruction {
    pub open spec fn wf(&self) -> bool {
        &&& self.program_id.wf()
        &&& forall|i: int|
            0 <= i < self.accounts@.len() ==> (#[trigger] self.accounts@[i]).wf()
    }
}

/// Little-endian image of a 64-bit amount.
pub open spec fn spec_le64(x: u64) -> Seq<u8> {
    seq![
        (x & 0xff) as u8,
        ((x >> 8) & 0xff) as u8,
        ((x >> 16) & 0xff) as u8,
        ((x >> 24) & 0xff) as u8,
        ((x >> 32) & 0xff) as u8,
        ((x >> 40) & 0xff) as u8,
        ((x >> 48) & 0xff) as u8,
        ((x >> 56) & 0xff) as u8,
    ]
}

/// Serializes a 64-bit amount in little-endian byte order.
pub fn le64_bytes(x: u64) -> (r: Vec<u8>)
    ensures
        r@ == spec_le64(x),
        r@.len() == 8,
{
    proof {
        assert((x & 0xff) < 256 && ((x >> 8) & 0xff) < 256 && ((x >> 16) & 0xff) < 256
            && ((x >> 24) & 0xff) < 256 && ((x >> 32) & 0xff) < 256 && ((x >> 40) & 0xff) < 256
            && ((x >> 48) & 0xff) < 256 && ((x >> 56) & 0xff) < 256) by (bit_vector);
    }
    let mut out: Vec<u8> = Vec::new();
    out.push((x & 0xff) as u8);
    out.push(((x >> 8) & 0xff) as u8);
    out.push(((x >> 16) & 0xff) as u8);
    out.push(((x >> 24) & 0xff) as u8);
    out.push(((x >> 32) & 0xff) as u8);
    out.push(((x >> 40) & 0xff) as u8);
    out.push(((x >> 48) & 0xff) as u8);
    out.push(((x >> 56) & 0xff) as u8);
    proof {
        assert(out@ =~= spec_le64(x));
    }
    out
}

/// Payload of the register-user action: tag, then the derivation bump.
pub open spec fn spec_init_user_data(bump: u8) -> Seq<u8> {
    seq![TAG_INIT_USER, bump]
}

/// Payload of the deposit-collateral action: tag, then the amount in
/// little-endian byte order.
pub open spec fn spec_deposit_data(amount: u64) -> Seq<u8> {
    seq![TAG_DEPOSIT_COLLATERAL] + spec_le64(amount)
}

/// Payload of the initialize-order-account action: the tag alone.
pub open spec fn spec_init_open_orders_data() -> Seq<u8> {
    seq![TAG_INIT_OPEN_ORDERS]
}

/// Account list of the register-user action: the group, the user account to
/// create (writable), the paying wallet owner (sole signer, writable), and
/// the system program.
pub open spec fn spec_init_user_accounts(
    group: Seq<u8>,
    user_account: Seq<u8>,
    owner: Seq<u8>,
) -> Seq<AccountMetaView> {
    seq![
        AccountMetaView { key: group, signer: false, writable: false },
        AccountMetaView { key: user_account, signer: false, writable: true },
        AccountMetaView { key: owner, signer: true, writable: true },
        AccountMetaView { key: SYSTEM_PROGRAM_ID@, signer: false, writable: false },
    ]
}

/// Account list of the deposit-collateral action: the group, the protocol
/// user account (writable), the vault (writable), the wallet owner (sole
/// signer), the source token account (writable), and the token program.
pub open spec fn spec_deposit_accounts(
    group: Seq<u8>,
    user_account: Seq<u8>,
    vault: Seq<u8>,
    source: Seq<u8>,
    signer: Seq<u8>,
) -> Seq<AccountMetaView> {
    seq![
        AccountMetaView { key: group, signer: false, writable: false },
        AccountMetaView { key: user_account, signer: false, writable: true },
        AccountMetaView { key: vault, signer: false, writable: true },
        AccountMetaView { key: signer, signer: true, writable: false },
        AccountMetaView { key: source, signer: false, writable: true },
        AccountMetaView { key: SPL_TOKEN_PROGRAM_ID@, signer: false, writable: false },
    ]
}

/// Account list of the initialize-order-account action: the group, the
/// protocol user account (writable), the wallet owner (sole signer), the
/// market, the order-tracking account to create (writable), and the market
/// authority as a read-only reference.
pub open spec fn spec_init_open_orders_accounts(
    group: Seq<u8>,
    user_account: Seq<u8>,
    signer: Seq<u8>,
    market: Seq<u8>,
    open_orders: Seq<u8>,
    market_authority: Seq<u8>,
) -> Seq<AccountMetaView> {
    seq![
        AccountMetaView { key: group, signer: false, writable: false },
        AccountMetaView { key: user_account, signer: false, writable: true },
        AccountMetaView { key: signer, signer: true, writable: false },
        AccountMetaView { key: market, signer: false, writable: false },
        AccountMetaView { key: open_orders, signer: false, writable: true },
        AccountMetaView { key: market_authority, signer: false, writable: false },
    ]
}

/// Builds the register-user instruction: creates the protocol user account
/// at its derived address, with the wallet owner as the sole signer.
pub fn get_init_user_ix(
    trading_program: &Pubkey,
    group_address: &Pubkey,
    user_account: &Pubkey,
    owner: &Pubkey,
    bump: u8,
) -> (r: Instruction)
    requires
        trading_program.wf(),
        group_address.wf(),
        user_account.wf(),
        owner.wf(),
    ensures
        r@.program == trading_program@,
        r@.accounts == spec_init_user_accounts(group_address@, user_account@, owner@),
        r@.data == spec_init_user_data(bump),
        r.wf(),
{
    let mut accounts: Vec<AccountMeta> = Vec::new();
    accounts.push(AccountMeta::new(group_address, false, false));
    accounts.push(AccountMeta::new(user_account, false, true));
    accounts.push(AccountMeta::new(owner, true, true));
    accounts.push(AccountMeta::new(&Pubkey::from_array(&SYSTEM_PROGRAM_ID), false, false));
    let mut data: Vec<u8> = Vec::new();
    data.push(TAG_INIT_USER);
    data.push(bump);
    let r = Instruction { program_id: trading_program.clone(), accounts, data };
    proof {
        assert(r@.accounts =~= spec_init_user_accounts(group_address@, user_account@, owner@));
        assert(r@.data =~= spec_init_user_data(bump));
    }
    r
}

/// Builds the deposit-collateral instruction: moves `amount` tokens from the
/// source token account into the protocol vault, signed by the wallet owner.
pub fn get_deposit_collateral_ix(
    trading_program: &Pubkey,
    cypher_group_pubkey: &Pubkey,
    cypher_user_pubkey: &Pubkey,
    cypher_pc_vault: &Pubkey,
    source_token_account: &Pubkey,
    signer: &Pubkey,
    amount: u64,
) -> (r: Instruction)
    requires
        trading_program.wf(),
        cypher_group_pubkey.wf(),
        cypher_user_pubkey.wf(),
        cypher_pc_vault.wf(),
        source_token_account.wf(),
        signer.wf(),
    ensures
        r@.program == trading_program@,
        r@.accounts == spec_deposit_accounts(
            cypher_group_pubkey@,
            cypher_user_pubkey@,
            cypher_pc_vault@,
            source_token_account@,
            signer@,
        ),
        r@.data == spec_deposit_data(amount),
        r.wf(),
{
    let mut accounts: Vec<AccountMeta> = Vec::new();
    accounts.push(AccountMeta::new(cypher_group_pubkey, false, false));
    accounts.push(AccountMeta::new(cypher_user_pubkey, false, true));
    accounts.push(AccountMeta::new(cypher_pc_vault, false, true));
    accounts.push(AccountMeta::new(signer, true, false));
    accounts.push(AccountMeta::new(source_token_account, false, true));
    accounts.push(AccountMeta::new(&crate::keys::spl_token_program_id(), false, false));
    let mut data: Vec<u8> = Vec::new();
    data.push(TAG_DEPOSIT_COLLATERAL);
    let mut amount_bytes = le64_bytes(amount);
    data.append(&mut amount_bytes);
    let r = Instruction { program_id: trading_program.clone(), accounts, data };
    proof {
        assert(r@.accounts =~= spec_deposit_accounts(
            cypher_group_pubkey@,
            cypher_user_pubkey@,
            cypher_pc_vault@,
            source_token_account@,
            signer@,
        ));
        assert(r@.data =~= spec_deposit_data(amount));
    }
    r
}

/// Builds the initialize-order-account instruction for an order-book venue.
/// The venue's market authority is derived here from the market identifier;
/// exhaustion of that derivation is surfaced as `DerivationExhausted`.
pub fn get_init_open_orders_ix(
    trading_program: &Pubkey,
    dex_program: &Pubkey,
    cypher_group_pubkey: &Pubkey,
    cypher_user_pubkey: &Pubkey,
    cypher_market: &Pubkey,
    open_orders: &Pubkey,
    signer: &Pubkey,
) -> (r: Result<Instruction, ClientError>)
    requires
        trading_program.wf(),
        dex_program.wf(),
        cypher_group_pubkey.wf(),
        cypher_user_pubkey.wf(),
        cypher_market.wf(),
        open_orders.wf(),
        signer.wf(),
    ensures
        (r matches Ok(ix) ==> {
            &&& pda_of(market_authority_seeds(cypher_market@), dex_program@) matches Some(p)
                && ix@.accounts == spec_init_open_orders_accounts(
                    cypher_group_pubkey@,
                    cypher_user_pubkey@,
                    signer@,
                    cypher_market@,
                    open_orders@,
                    p.0,
                )
            &&& ix@.program == trading_program@
            &&& ix@.data == spec_init_open_orders_data()
            &&& ix.wf()
        }),
        (r is Err ==> {
            &&& r == Err::<Instruction, ClientError>(ClientError::DerivationExhausted)
            &&& pda_of(market_authority_seeds(cypher_market@), dex_program@) is None
        }),
{
    let market_authority = match derive_dex_market_authority(dex_program, cypher_market) {
        Ok(k) => k,
        Err(e) => {
            return Err(e);
        },
    };
    let mut accounts: Vec<AccountMeta> = Vec::new();
    accounts.push(AccountMeta::new(cypher_group_pubkey, false, false));
    accounts.push(AccountMeta::new(cypher_user_pubkey, false, true));
    accounts.push(AccountMeta::new(signer, true, false));
    accounts.push(AccountMeta::new(cypher_market, false, false));
    accounts.push(AccountMeta::new(open_orders, false, true));
    accounts.push(AccountMeta::new(&market_authority, false, false));
    let mut data: Vec<u8> = Vec::new();
    data.push(TAG_INIT_OPEN_ORDERS);
    let r = Instruction { program_id: trading_program.clone(), accounts, data };
    proof {
        assert(r@.accounts =~= spec_init_open_orders_accounts(
            cypher_group_pubkey@,
            cypher_user_pubkey@,
            signer@,
            cypher_market@,
            open_orders@,
            market_authority@,
        ));
        assert(r@.data =~= spec_init_open_orders_data());
    }
    Ok(r)
}

/// Law: in the deposit-collateral account list the wallet owner is the sole
/// signer, and the vault and the protocol user account are writable
/// non-signers, in the fixed positions the trading program expects.
pub proof fn lemma_deposit_signer_shape(
    group: Seq<u8>,
    user_account: Seq<u8>,
    vault: Seq<u8>,
    source: Seq<u8>,
    signer: Seq<u8>,
)
    ensures
        spec_deposit_accounts(group, user_account, vault, source, signer).len() == 6,
        spec_deposit_accounts(group, user_account, vault, source, signer)[3].key == signer,
        spec_deposit_accounts(group, user_account, vault, source, signer)[3].signer,
        forall|i: int|
            0 <= i < 6 && i != 3 ==> !spec_deposit_accounts(
                group,
                user_account,
                vault,
                source,
                signer,
            )[i].signer,
        spec_deposit_accounts(group, user_account, vault, source, signer)[1]
            == (AccountMetaView { key: user_account, signer: false, writable: true }),
        spec_deposit_accounts(group, user_account, vault, source, signer)[2]
            == (AccountMetaView { key: vault, signer: false, writable: true }),
{
}

} // verus!
