//! The failures that an operation of the registry can report.

use vstd::prelude::*;

verus! {

/// Every operation either succeeds or fails with exactly one of these.
#[derive(Clone, Copy, Debug, PartialEq, Eq, Structural)]
pub enum ErrorCode {
    /// The handle is empty, longer than 32 bytes, or holds a character outside `[a-z0-9._-]`.
    InvalidHandle,
    /// The mapping type is empty, longer than 16 bytes, or holds a character outside `[a-z0-9.-]`.
    InvalidMappingType,
    /// A record already occupies the slot that the operation would create.
    AlreadyExists,
    /// A record that the operation reads does not exist.
    NotFound,
    /// The caller is not the owning authority of the identity.
    NotAuthorized,
    /// The resolved identity does not carry the requested handle.
    UsernameMismatch,
    /// The mapping does not belong to the expected identity or type.
    MappingMismatch,
    /// A transfer of zero units was requested.
    InvalidTransferAmount,
    /// The points balance is below the amount asked for.
    InsufficientPoints,
    /// The session belongs to another handle than the ledger it would debit.
    SessionUsernameMismatch,
    /// The session id does not match, or is longer than 64 bytes.
    InvalidSessionId,
    /// The session was already consumed.
    SessionExpired,
    /// The address derivation found no address for the identity's seeds.
    NoViableAddress,
}

impl ErrorCode {
    /// A short human-readable description of the failure.
    pub fn message(&self) -> &'static str {
        match self {
            ErrorCode::InvalidHandle => "Invalid username: only [a-z0-9._-], 1..=32, and must not contain '@'",
            ErrorCode::InvalidMappingType => "Invalid address type: only [a-z0-9.-], 1..=16",
            ErrorCode::AlreadyExists => "The record already exists",
            ErrorCode::NotFound => "The record does not exist",
            ErrorCode::NotAuthorized => "Sender is not authorized for this profile",
            ErrorCode::UsernameMismatch => "Username does not match the provided profile",
            ErrorCode::MappingMismatch => "Address mapping does not match the expected profile or type",
            ErrorCode::InvalidTransferAmount => "Transfer amount must be greater than zero",
            ErrorCode::InsufficientPoints => "Insufficient points for this operation",
            ErrorCode::SessionUsernameMismatch => "Session username does not match user points username",
            ErrorCode::InvalidSessionId => "Invalid session ID",
            ErrorCode::SessionExpired => "Authentication session has expired or is inactive",
            ErrorCode::NoViableAddress => "No viable program address for these seeds",
        }
    }
}

} // verus!
