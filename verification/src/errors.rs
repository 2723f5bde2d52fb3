//! Error types surfaced by configuration validation and the gas services.

use vstd::prelude::*;

verus! {

/// Errors reported while validating a network configuration.
#[derive(Debug, Clone, PartialEq, Eq)]
pub enum ConfigFileError {
    /// A required field is absent (the payload names the field).
    MissingField(String),
    /// A field is present but holds an unacceptable value.
    InvalidFormat(String),
}

/// Errors reported by the gas-price cache and the fee services.
#[derive(Debug, Clone, PartialEq, Eq)]
pub enum TransactionError {
    /// A cache or network operation needed data that is not there.
    NetworkConfiguration(String),
    /// An oracle read or another downstream call failed; the payload
    /// carries the underlying error text.
    UnexpectedError(String),
}

} // verus!
