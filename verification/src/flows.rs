//! End-to-end construction flows: from a semantic intent to a finalized,
//! submission-ready transaction. Fetching the freshness token, signing key
//! material, and the network round-trip stay outside this layer; a flow
//! takes the token as an argument and returns the transaction for the
//! caller to sign and submit.

use vstd::prelude::*;
use crate::errors::ClientError;
use crate::keys::Pubkey;
use crate::derive::{pda_of, user_account_seeds, derive_user_account_address};
use crate::instruction::{spec_init_user_accounts, spec_init_user_data, get_init_user_ix};
use crate::txn::{BlockHash, Transaction, TxnBuilder, spec_required_signers, extras_view};

verus! {

/// Builds the register-user transaction: derives the protocol user account
/// for (group, owner), wraps the register-user instruction as the sole
/// instruction of a transaction under the given freshness token, with the
/// owner as fee payer and sole signer. Exhaustion of the derivation space
/// is surfaced as `DerivationExhausted`.
pub fn init_cypher_user(
    trading_program: &Pubkey,
    group_address: &Pubkey,
    owner: &Pubkey,
    recent_blockhash: BlockHash,
) -> (r: Result<Transaction, ClientError>)
    requires
        trading_program.wf(),
        group_address.wf(),
        owner.wf(),
        recent_blockhash.wf(),
    ensures
        (r matches Ok(tx) ==> {
            &&& pda_of(user_account_seeds(group_address@, owner@), trading_program@)
                matches Some(p) && tx@.instructions == seq![
                crate::instruction::InstructionView {
                    program: trading_program@,
                    accounts: spec_init_user_accounts(group_address@, p.0, owner@),
                    data: spec_init_user_data(p.1),
                },
            ]
            &&& tx@.blockhash == recent_blockhash@
            &&& tx@.signers == spec_required_signers(
                owner@,
                extras_view(None),
                tx@.instructions,
            )
            &&& tx.wf()
        }),
        (r is Err ==> {
            &&& r == Err::<Transaction, ClientError>(ClientError::DerivationExhausted)
            &&& pda_of(user_account_seeds(group_address@, owner@), trading_program@) is None
        }),
{
    let (user_account, bump) = match derive_user_account_address(
        trading_program,
        group_address,
        owner,
    ) {
        Ok(p) => p,
        Err(e) => {
            return Err(e);
        },
    };
    let ix = get_init_user_ix(trading_program, group_address, &user_account, owner, bump);
    let ghost ix_view = ix@;
    let mut builder = TxnBuilder::new();
    builder.add(ix);
    proof {
        assert(builder@ =~= seq![ix_view]);
    }
    match builder.build(recent_blockhash, owner, None) {
        Ok(tx) => Ok(tx),
        Err(_) => Err(ClientError::EmptyTransaction),
    }
}

} // verus!
