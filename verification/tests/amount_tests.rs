use mm_client::amount::{get_token_account, parse_u64_digits, token_amount_from_parts,
    BalanceResponse, TokenAmount};
use mm_client::errors::{ClientError, QueryError};

#[test]
fn parses_small_values() {
    assert_eq!(parse_u64_digits(&b"0".to_vec()), Ok(0));
    assert_eq!(parse_u64_digits(&b"7".to_vec()), Ok(7));
    assert_eq!(parse_u64_digits(&b"12345".to_vec()), Ok(12345));
    assert_eq!(parse_u64_digits(&b"0012".to_vec()), Ok(12));
}

#[test]
fn parses_the_largest_value() {
    assert_eq!(
        parse_u64_digits(&b"18446744073709551615".to_vec()),
        Ok(u64::MAX)
    );
}

#[test]
fn rejects_values_out_of_range() {
    assert_eq!(
        parse_u64_digits(&b"18446744073709551616".to_vec()),
        Err(ClientError::MalformedAmount)
    );
    assert_eq!(
        parse_u64_digits(&b"99999999999999999999999".to_vec()),
        Err(ClientError::MalformedAmount)
    );
}

#[test]
fn rejects_empty_and_non_digit_strings() {
    assert_eq!(parse_u64_digits(&b"".to_vec()), Err(ClientError::MalformedAmount));
    assert_eq!(parse_u64_digits(&b"12a3".to_vec()), Err(ClientError::MalformedAmount));
    assert_eq!(parse_u64_digits(&b"-5".to_vec()), Err(ClientError::MalformedAmount));
    assert_eq!(parse_u64_digits(&b" 5".to_vec()), Err(ClientError::MalformedAmount));
}

#[test]
fn token_amount_carries_decimals() {
    let amount = token_amount_from_parts(&b"2500000".to_vec(), 6).unwrap();
    assert_eq!(amount, TokenAmount { amount: 2_500_000, decimals: 6 });
    assert_eq!(
        token_amount_from_parts(&b"x".to_vec(), 6),
        Err(ClientError::MalformedAmount)
    );
}

#[test]
fn balance_responses_are_classified() {
    assert_eq!(
        get_token_account(BalanceResponse::Unreachable),
        Err(QueryError::Transport)
    );
    assert_eq!(
        get_token_account(BalanceResponse::NotFound),
        Err(QueryError::NotFound)
    );
    assert_eq!(
        get_token_account(BalanceResponse::Balance(b"955".to_vec(), 2)),
        Ok(TokenAmount { amount: 955, decimals: 2 })
    );
    assert_eq!(
        get_token_account(BalanceResponse::Balance(b"9x5".to_vec(), 2)),
        Err(QueryError::Malformed)
    );
    assert_eq!(
        get_token_account(BalanceResponse::Balance(b"".to_vec(), 0)),
        Err(QueryError::Malformed)
    );
}
