//! Address derivation: deterministic computation of program-derived account
//! addresses from byte seeds and an owning program. Derivation is pure: the
//! same seed tuple and program always name the same (address, bump) pair,
//! and the result is guaranteed off the ed25519 curve, so it can never
//! collide with an independently-signable key.

use vstd::prelude::*;
use crate::errors::ClientError;
use crate::keys::{Pubkey, SPL_TOKEN_PROGRAM_ID, ASSOCIATED_TOKEN_PROGRAM_ID,
    QUOTE_MINT_ID, spl_token_program_id, quote_mint_id};

verus! {

/// Greatest number of seeds a derivation may use (one slot is reserved for
/// the bump disambiguator).
pub const MAX_SEEDS: usize = 16;

/// Greatest length of a single seed, in bytes.
pub const MAX_SEED_LEN: usize = 32;

/// The (address, bump) pair that the network's program-derived-address
/// computation assigns to a seed tuple and an owning program, or `None` when
/// the bump search space is exhausted. The computation is a hash-based search
/// that depends on its arguments alone; its value is not restated here.
pub uninterp spec fn pda_of(seeds: Seq<Seq<u8>>, program: Seq<u8>) -> Option<(Seq<u8>, u8)>;

/// Whether a 32-byte value is a point on the ed25519 curve, i.e. a valid
/// public key that some private key can sign for.
pub uninterp spec fn on_curve(key: Seq<u8>) -> bool;

/// Relies on `solana_sdk::pubkey::Pubkey::try_find_program_address`: a pure
/// function of (seeds, program id) that searches bump values from high to
/// low and returns the first derived hash that is off the ed25519 curve,
/// or `None` once the whole bump space is rejected.
#[verifier::external_body]
fn find_pda(seeds: &Vec<Vec<u8>>, program: &Pubkey) -> (r: Option<(Pubkey, u8)>)
    requires
        program.wf(),
        seeds@.len() < MAX_SEEDS,
        forall|i: int| 0 <= i < seeds@.len() ==> (#[trigger] seeds@[i])@.len() <= MAX_SEED_LEN,
    ensures
        r matches Some(p) ==> {
            &&& pda_of(seeds.deep_view(), program@) == Some((p.0@, p.1))
            &&& p.0.wf()
            &&& !on_curve(p.0@)
        },
        r is None ==> pda_of(seeds.deep_view(), program@) is None,
{
    let seed_slices: Vec<&[u8]> = seeds.iter().map(|s| s.as_slice()).collect();
    let program_key = solana_sdk::pubkey::Pubkey::new_from_array(
        program.bytes.as_slice().try_into().unwrap(),
    );
    match solana_sdk::pubkey::Pubkey::try_find_program_address(&seed_slices, &program_key) {
        Some((addr, bump)) => Some((Pubkey { bytes: addr.to_bytes().to_vec() }, bump)),
        None => None,
    }
}

/// Relies on `solana_sdk::pubkey::Pubkey::is_on_curve`: whether the 32-byte
/// value is a valid ed25519 point; a function of the bytes alone.
#[verifier::external_body]
fn key_on_curve(k: &Pubkey) -> (r: bool)
    requires
        k.wf(),
    ensures
        r == on_curve(k@),
{
    let key = solana_sdk::pubkey::Pubkey::new_from_array(
        k.bytes.as_slice().try_into().unwrap(),
    );
    key.is_on_curve()
}

/// Whether an address lies outside the valid-key space, so that no private
/// key can independently sign for it. True of every derived address.
pub fn is_off_curve(k: &Pubkey) -> (r: bool)
    requires
        k.wf(),
    ensures
        r == !on_curve(k@),
{
    !key_on_curve(k)
}

/// The seed tuple of a wallet's quote-token account:
/// (wallet address, token program id, quote mint id).
pub open spec fn quote_token_seeds(wallet: Seq<u8>) -> Seq<Seq<u8>> {
    seq![wallet, SPL_TOKEN_PROGRAM_ID@, QUOTE_MINT_ID@]
}

/// The seed tuple of a protocol user account: (group identifier, wallet).
pub open spec fn user_account_seeds(group: Seq<u8>, owner: Seq<u8>) -> Seq<Seq<u8>> {
    seq![group, owner]
}

/// The seed tuple of a venue market authority: (market identifier).
pub open spec fn market_authority_seeds(market: Seq<u8>) -> Seq<Seq<u8>> {
    seq![market]
}

/// Derives the wallet's quote-token account address, owned by the
/// associated-token program. Deterministic and side-effect free; the
/// statistically improbable exhaustion of the bump space is surfaced as
/// `DerivationExhausted`, never silently retried with different seeds.
pub fn derive_quote_token_address(wallet_address: &Pubkey) -> (r: Result<Pubkey, ClientError>)
    requires
        wallet_address.wf(),
    ensures
        (r matches Ok(k) ==> {
            &&& pda_of(quote_token_seeds(wallet_address@), ASSOCIATED_TOKEN_PROGRAM_ID@)
                matches Some(p) && k@ == p.0
            &&& k.wf()
            &&& !on_curve(k@)
        }),
        (r is Err ==> {
            &&& r == Err::<Pubkey, ClientError>(ClientError::DerivationExhausted)
            &&& pda_of(quote_token_seeds(wallet_address@), ASSOCIATED_TOKEN_PROGRAM_ID@) is None
        }),
{
    let mut seeds: Vec<Vec<u8>> = Vec::new();
    seeds.push(wallet_address.clone().bytes);
    seeds.push(spl_token_program_id().bytes);
    seeds.push(quote_mint_id().bytes);
    proof {
        assert(seeds.deep_view() =~~= quote_token_seeds(wallet_address@));
    }
    let owner = crate::keys::associated_token_program_id();
    match find_pda(&seeds, &owner) {
        Some((address, _bump)) => Ok(address),
        None => Err(ClientError::DerivationExhausted),
    }
}

/// Derives the protocol user account address for a group and a wallet owner,
/// owned by the trading program. Returns the (address, bump) pair.
pub fn derive_user_account_address(
    trading_program: &Pubkey,
    group_address: &Pubkey,
    owner: &Pubkey,
) -> (r: Result<(Pubkey, u8), ClientError>)
    requires
        trading_program.wf(),
        group_address.wf(),
        owner.wf(),
    ensures
        (r matches Ok(p) ==> {
            &&& pda_of(user_account_seeds(group_address@, owner@), trading_program@)
                == Some((p.0@, p.1))
            &&& p.0.wf()
            &&& !on_curve(p.0@)
        }),
        (r is Err ==> {
            &&& r == Err::<(Pubkey, u8), ClientError>(ClientError::DerivationExhausted)
            &&& pda_of(user_account_seeds(group_address@, owner@), trading_program@) is None
        }),
{
    let mut seeds: Vec<Vec<u8>> = Vec::new();
    seeds.push(group_address.clone().bytes);
    seeds.push(owner.clone().bytes);
    proof {
        assert(seeds.deep_view() =~~= user_account_seeds(group_address@, owner@));
    }
    match find_pda(&seeds, trading_program) {
        Some(pair) => Ok(pair),
        None => Err(ClientError::DerivationExhausted),
    }
}

/// Derives the market authority address of an order-book venue, owned by the
/// order-book program.
pub fn derive_dex_market_authority(
    dex_program: &Pubkey,
    market: &Pubkey,
) -> (r: Result<Pubkey, ClientError>)
    requires
        dex_program.wf(),
        market.wf(),
    ensures
        (r matches Ok(k) ==> {
            &&& pda_of(market_authority_seeds(market@), dex_program@) matches Some(p) && k@ == p.0
            &&& k.wf()
            &&& !on_curve(k@)
        }),
        (r is Err ==> {
            &&& r == Err::<Pubkey, ClientError>(ClientError::DerivationExhausted)
            &&& pda_of(market_authority_seeds(market@), dex_program@) is None
        }),
{
    let mut seeds: Vec<Vec<u8>> = Vec::new();
    seeds.push(market.clone().bytes);
    proof {
        assert(seeds.deep_view() =~~= market_authority_seeds(market@));
    }
    match find_pda(&seeds, dex_program) {
        Some((address, _bump)) => Ok(address),
        None => Err(ClientError::DerivationExhausted),
    }
}

/// Law: derivation is deterministic. Deriving from the same seed tuple and
/// the same owning program twice yields the identical (address, bump) pair,
/// or fails identically.
pub proof fn lemma_derivation_deterministic(
    seeds_first: Seq<Seq<u8>>,
    seeds_second: Seq<Seq<u8>>,
    program_first: Seq<u8>,
    program_second: Seq<u8>,
)
    requires
        seeds_first == seeds_second,
        program_first == program_second,
    ensures
        pda_of(seeds_first, program_first) == pda_of(seeds_second, program_second),
{
}

} // verus!
