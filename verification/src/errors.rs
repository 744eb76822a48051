//! Error taxonomy of the client layer: construction-time failures that
//! propagate synchronously, kept apart from the classified outcome of a
//! network submission (see `submit`).

use vstd::prelude::*;

verus! {

/// A synchronous, construction-time failure.
#[derive(Clone, Copy, Debug, PartialEq, Eq, Structural)]
pub enum ClientError {
    /// Address derivation exhausted the disambiguator space: a fatal
    /// configuration error, never retried with different seeds.
    DerivationExhausted,
    /// A transaction was built from zero instructions: a degenerate no-op
    /// that is rejected before it can be submitted.
    EmptyTransaction,
    /// A byte string that should name an account did not have the fixed
    /// address length.
    BadKeyLength,
    /// A balance string held something besides decimal digits, was empty,
    /// or named a value too large for the numeric range of an amount.
    MalformedAmount,
}

/// Failure of a balance read, classified so the caller can tell a retryable
/// network problem from a missing account and from a malformed response.
#[derive(Clone, Copy, Debug, PartialEq, Eq, Structural)]
pub enum QueryError {
    /// The endpoint was unreachable; safe to retry.
    Transport,
    /// The queried account does not exist at the requested level.
    NotFound,
    /// The endpoint answered, but the balance payload was malformed.
    Malformed,
}

} // verus!
