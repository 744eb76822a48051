//! Token balances as the account query helper returns them: a raw amount in
//! base units, reported by the network as a decimal digit string, plus the
//! mint's decimal count. Parsing the digit string is exact: it succeeds if
//! and only if the string is a non-empty run of decimal digits whose value
//! fits the numeric range of an amount.

use vstd::prelude::*;
use crate::errors::{ClientError, QueryError};

verus! {

/// A token-account balance: the raw amount in base units and the mint's
/// decimal count (the real balance is `amount / 10^decimals`).
#[derive(Clone, Copy, Debug, PartialEq, Eq, Structural)]
pub struct TokenAmount {
    pub amount: u64,
    pub decimals: u8,
}

/// ASCII code of the digit zero.
pub const DIGIT_ZERO: u8 = 48;

/// ASCII code of the digit nine.
pub const DIGIT_NINE: u8 = 57;

/// Whether every byte of `s` is an ASCII decimal digit.
pub open spec fn all_digits(s: Seq<u8>) -> bool {
    forall|i: int| 0 <= i < s.len() ==> DIGIT_ZERO <= #[trigger] s[i] <= DIGIT_NINE
}

/// The numeric value of a digit string, most significant digit first.
pub open spec fn spec_digits_value(s: Seq<u8>) -> int
    decreases s.len(),
{
    if s.len() == 0 {
        0
    } else {
        spec_digits_value(s.drop_last()) * 10 + (s.last() - DIGIT_ZERO)
    }
}

/// The value of a digit string is never negative.
proof fn lemma_value_nonneg(s: Seq<u8>)
    requires
        all_digits(s),
    ensures
        spec_digits_value(s) >= 0,
    decreases s.len(),
{
    if s.len() > 0 {
        assert(all_digits(s.drop_last()));
        lemma_value_nonneg(s.drop_last());
    }
}

/// Extending a digit string never shrinks its value: the value of a prefix
/// is a lower bound for the value of the whole string.
proof fn lemma_value_prefix_bound(s: Seq<u8>, i: int)
    requires
        all_digits(s),
        0 <= i <= s.len(),
    ensures
        spec_digits_value(s.take(i)) <= spec_digits_value(s),
    decreases s.len() - i,
{
    if i < s.len() {
        let t = s.take(i + 1);
        assert(t.drop_last() =~= s.take(i));
        assert(all_digits(s.take(i)));
        lemma_value_nonneg(s.take(i));
        assert(spec_digits_value(t) == spec_digits_value(s.take(i)) * 10 + (s[i] - DIGIT_ZERO));
        assert(spec_digits_value(s.take(i)) * 10 >= spec_digits_value(s.take(i))) by (
        nonlinear_arith)
            requires
                spec_digits_value(s.take(i)) >= 0,
        ;
        lemma_value_prefix_bound(s, i + 1);
    } else {
        assert(s.take(i) =~= s);
    }
}

/// Parses the decimal digit string a balance query reports. Returns the
/// value exactly when the string is non-empty, holds only decimal digits,
/// and names a value that fits in 64 bits; anything else is malformed.
pub fn parse_u64_digits(digits: &Vec<u8>) -> (r: Result<u64, ClientError>)
    ensures
        (r matches Ok(v) ==> {
            &&& digits@.len() > 0
            &&& all_digits(digits@)
            &&& v == spec_digits_value(digits@)
        }),
        r is Ok <==> (digits@.len() > 0 && all_digits(digits@) && spec_digits_value(digits@)
            <= u64::MAX),
        r is Err ==> r == Err::<u64, ClientError>(ClientError::MalformedAmount),
{
    if digits.len() == 0 {
        return Err(ClientError::MalformedAmount);
    }
    let mut acc: u64 = 0;
    let mut i: usize = 0;
    while i < digits.len()
        invariant
            i <= digits@.len(),
            all_digits(digits@.take(i as int)),
            acc == spec_digits_value(digits@.take(i as int)),
        decreases digits@.len() - i,
    {
        let b = digits[i];
        if b < DIGIT_ZERO || b > DIGIT_NINE {
            proof {
                assert(!all_digits(digits@));
            }
            return Err(ClientError::MalformedAmount);
        }
        let d = (b - DIGIT_ZERO) as u64;
        proof {
            assert(digits@.take(i as int + 1).drop_last() =~= digits@.take(i as int));
            assert(all_digits(digits@.take(i as int + 1)));
        }
        let shifted = match acc.checked_mul(10) {
            Some(m) => m,
            None => {
                proof {
                    if all_digits(digits@) {
                        lemma_value_nonneg(digits@.take(i as int));
                        assert(spec_digits_value(digits@.take(i as int + 1)) > u64::MAX) by (
                        nonlinear_arith)
                            requires
                                spec_digits_value(digits@.take(i as int + 1))
                                    == spec_digits_value(digits@.take(i as int)) * 10 + (
                                digits@[i as int] - DIGIT_ZERO),
                                spec_digits_value(digits@.take(i as int)) * 10 > u64::MAX,
                                digits@[i as int] >= DIGIT_ZERO,
                        ;
                        lemma_value_prefix_bound(digits@, i as int + 1);
                    }
                }
                return Err(ClientError::MalformedAmount);
            },
        };
        let next = match shifted.checked_add(d) {
            Some(n) => n,
            None => {
                proof {
                    if all_digits(digits@) {
                        lemma_value_prefix_bound(digits@, i as int + 1);
                    }
                }
                return Err(ClientError::MalformedAmount);
            },
        };
        acc = next;
        i = i + 1;
    }
    proof {
        assert(digits@.take(digits@.len() as int) =~= digits@);
    }
    Ok(acc)
}

/// Builds a balance value from the transport's reported digit string and
/// decimal count; malformed digit strings are rejected exactly as in
/// `parse_u64_digits`.
pub fn token_amount_from_parts(digits: &Vec<u8>, decimals: u8) -> (r: Result<
    TokenAmount,
    ClientError,
>)
    ensures
        (r matches Ok(t) ==> {
            &&& t.amount == spec_digits_value(digits@)
            &&& t.decimals == decimals
        }),
        r is Ok <==> (digits@.len() > 0 && all_digits(digits@) && spec_digits_value(digits@)
            <= u64::MAX),
        r is Err ==> r == Err::<TokenAmount, ClientError>(ClientError::MalformedAmount),
{
    match parse_u64_digits(digits) {
        Ok(amount) => Ok(TokenAmount { amount, decimals }),
        Err(e) => Err(e),
    }
}

/// What the network hands back for a token-account balance query.
pub enum BalanceResponse {
    /// The endpoint could not be reached.
    Unreachable,
    /// The account does not exist at the requested confirmation level.
    NotFound,
    /// The balance as a decimal digit string plus the mint's decimal count.
    Balance(Vec<u8>, u8),
}

/// The read path of the account query helper: classifies the network's
/// balance response into the value or a transport / not-found / malformed
/// error. Purely a read; it carries no ordering guarantee relative to any
/// pending local transaction.
pub fn get_token_account(response: BalanceResponse) -> (r: Result<TokenAmount, QueryError>)
    ensures
        response is Unreachable ==> r == Err::<TokenAmount, QueryError>(QueryError::Transport),
        response is NotFound ==> r == Err::<TokenAmount, QueryError>(QueryError::NotFound),
        (response matches BalanceResponse::Balance(digits, decimals) ==> {
            &&& (digits@.len() > 0 && all_digits(digits@) && spec_digits_value(digits@)
                <= u64::MAX) ==> r == Ok::<TokenAmount, QueryError>(
                TokenAmount { amount: spec_digits_value(digits@) as u64, decimals },
            )
            &&& !(digits@.len() > 0 && all_digits(digits@) && spec_digits_value(digits@)
                <= u64::MAX) ==> r == Err::<TokenAmount, QueryError>(QueryError::Malformed)
        }),
{
    match response {
        BalanceResponse::Unreachable => Err(QueryError::Transport),
        BalanceResponse::NotFound => Err(QueryError::NotFound),
        BalanceResponse::Balance(digits, decimals) => {
            match token_amount_from_parts(&digits, decimals) {
                Ok(amount) => Ok(amount),
                Err(_) => Err(QueryError::Malformed),
            }
        },
    }
}

} // verus!
