//! Account addresses: a fixed-length (32 byte) binary identifier naming an
//! account on the network, plus the well-known program identifiers this
//! client layer relies on.

use vstd::prelude::*;
use crate::errors::ClientError;

verus! {

/// Number of bytes in an account address.
pub const KEY_LEN: usize = 32;

/// The token program that owns fungible-token accounts.
/// Base58 form: `TokenkegQfeZyiNwAJbNbGKPFXCWuBvf9Ss623VQ5DA`.
pub const SPL_TOKEN_PROGRAM_ID: [u8; 32] = [
    6, 221, 246, 225, 215, 101, 161, 147, 217, 203, 225, 70, 206, 235, 121, 172,
    28, 180, 133, 237, 95, 91, 55, 145, 58, 140, 245, 133, 126, 255, 0, 169,
];

/// The associated-token program that owns derived token-account addresses.
/// Base58 form: `ATokenGPvbdGVxr1b2hvZbsiqW5xWH25efTNsLJA8knL`.
pub const ASSOCIATED_TOKEN_PROGRAM_ID: [u8; 32] = [
    140, 151, 37, 143, 78, 36, 137, 241, 187, 61, 16, 41, 20, 142, 13, 131,
    11, 90, 19, 153, 218, 255, 16, 132, 4, 142, 123, 216, 219, 233, 248, 89,
];

/// The mint of the protocol's quote token.
/// Base58 form: `EPjFWdd5AufqSSqeM2qN1xzybapC8G4wEGGkZwyTDt1v`.
pub const QUOTE_MINT_ID: [u8; 32] = [
    198, 250, 122, 243, 190, 219, 173, 58, 61, 101, 243, 106, 171, 201, 116, 49,
    177, 187, 228, 194, 210, 246, 224, 228, 124, 166, 2, 3, 69, 47, 93, 97,
];

/// A 32-byte account address. Two kinds of value inhabit this type:
/// wallet-controlled addresses (valid signing keys) and program-derived
/// addresses (off-curve, no private key); the type itself does not
/// distinguish them.
pub struct Pubkey {
    pub bytes: Vec<u8>,
}

impl View for Pubkey {
    type V = Seq<u8>;

    open spec fn view(&self) -> Seq<u8> {
        self.bytes@
    }
}

impl Pubkey {
    /// A well-formed address holds exactly `KEY_LEN` bytes.
    pub open spec fn wf(&self) -> bool {
        self@.len() == KEY_LEN
    }

    /// Wraps a byte vector already known to have the address length.
    pub fn new(bytes: Vec<u8>) -> (r: Pubkey)
        requires
            bytes@.len() == KEY_LEN,
        ensures
            r@ == bytes@,
            r.wf(),
    {
        Pubkey { bytes }
    }

    /// Wraps an untrusted byte vector, rejecting any length but `KEY_LEN`.
    pub fn from_byte_vec(bytes: Vec<u8>) -> (r: Result<Pubkey, ClientError>)
        ensures
            bytes@.len() == KEY_LEN ==> (r matches Ok(k) && k@ == bytes@ && k.wf()),
            bytes@.len() != KEY_LEN ==> r == Err::<Pubkey, ClientError>(ClientError::BadKeyLength),
    {
        if bytes.len() == KEY_LEN {
            Ok(Pubkey { bytes })
        } else {
            Err(ClientError::BadKeyLength)
        }
    }

    /// Builds an address from a fixed-length byte array.
    pub fn from_array(bytes: &[u8; 32]) -> (r: Pubkey)
        ensures
            r@ == bytes@,
            r.wf(),
    {
        Pubkey { bytes: vstd::slice::slice_to_vec(bytes.as_slice()) }
    }
}

impl Clone for Pubkey {
    fn clone(&self) -> (r: Self)
        ensures
            r@ == self@,
    {
        let mut out: Vec<u8> = Vec::new();
        let mut i: usize = 0;
        while i < self.bytes.len()
            invariant
                i <= self.bytes@.len(),
                out@ == self.bytes@.take(i as int),
            decreases self.bytes@.len() - i,
        {
            out.push(self.bytes[i]);
            i = i + 1;
        }
        proof {
            assert(self.bytes@.take(self.bytes@.len() as int) =~= self.bytes@);
        }
        Pubkey { bytes: out }
    }
}

/// Compares two addresses byte for byte.
pub fn key_eq(a: &Pubkey, b: &Pubkey) -> (r: bool)
    ensures
        r == (a@ == b@),
{
    if a.bytes.len() != b.bytes.len() {
        return false;
    }
    let mut i: usize = 0;
    while i < a.bytes.len()
        invariant
            i <= a.bytes@.len(),
            a.bytes@.len() == b.bytes@.len(),
            forall|j: int| 0 <= j < i ==> a.bytes@[j] == b.bytes@[j],
        decreases a.bytes@.len() - i,
    {
        if a.bytes[i] != b.bytes[i] {
            return false;
        }
        i = i + 1;
    }
    proof {
        assert(a@ =~= b@);
    }
    true
}

/// The token program identifier as an address value.
pub fn spl_token_program_id() -> (r: Pubkey)
    ensures
        r@ == SPL_TOKEN_PROGRAM_ID@,
        r.wf(),
{
    Pubkey::from_array(&SPL_TOKEN_PROGRAM_ID)
}

/// The associated-token program identifier as an address value.
pub fn associated_token_program_id() -> (r: Pubkey)
    ensures
        r@ == ASSOCIATED_TOKEN_PROGRAM_ID@,
        r.wf(),
{
    Pubkey::from_array(&ASSOCIATED_TOKEN_PROGRAM_ID)
}

/// The quote mint identifier as an address value.
pub fn quote_mint_id() -> (r: Pubkey)
    ensures
        r@ == QUOTE_MINT_ID@,
        r.wf(),
{
    Pubkey::from_array(&QUOTE_MINT_ID)
}

} // verus!
