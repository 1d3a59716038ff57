//! The errors of the request contract and their numeric codes.

use vstd::prelude::*;

verus! {

/// Every way an operation of the request contract can fail.
///
/// The variants are grouped by the decade of their numeric code, which is
/// what a caller sees on the wire; see [`ContractError::code`].
#[derive(Copy, Clone, Debug, PartialEq, Eq, Structural, PartialOrd, Ord)]
pub enum ContractError {
    // General
    AlreadyInitialized,
    NotInitialized,
    Unauthorized,
    // Validation
    InvalidAmount,
    InvalidAddress,
    InvalidInput,
    InvalidBloodType,
    InvalidStatus,
    InvalidTimestamp,
    InvalidQuantity,
    InvalidExpiration,
    // State
    AlreadyExists,
    NotFound,
    Expired,
    RequestExpired,
    DuplicateRequest,
    // Permission
    InsufficientPermissions,
    NotAuthorizedHospital,
    NotAuthorizedBloodBank,
    // Request-specific
    RequestNotFound,
    InvalidStatusTransition,
    RequestAlreadyFulfilled,
    InsufficientBloodUnits,
    RequestOverdue,
}

impl ContractError {
    /// The numeric code of each error: general errors from 0, validation
    /// errors from 10, state errors from 20, permission errors from 30 and
    /// request-specific errors from 40.
    pub open spec fn code_of(self) -> u32 {
        match self {
            ContractError::AlreadyInitialized => 0,
            ContractError::NotInitialized => 1,
            ContractError::Unauthorized => 2,
            ContractError::InvalidAmount => 10,
            ContractError::InvalidAddress => 11,
            ContractError::InvalidInput => 12,
            ContractError::InvalidBloodType => 13,
            ContractError::InvalidStatus => 14,
            ContractError::InvalidTimestamp => 15,
            ContractError::InvalidQuantity => 16,
            ContractError::InvalidExpiration => 17,
            ContractError::AlreadyExists => 20,
            ContractError::NotFound => 21,
            ContractError::Expired => 22,
            ContractError::RequestExpired => 23,
            ContractError::DuplicateRequest => 24,
            ContractError::InsufficientPermissions => 31,
            ContractError::NotAuthorizedHospital => 32,
            ContractError::NotAuthorizedBloodBank => 33,
            ContractError::RequestNotFound => 40,
            ContractError::InvalidStatusTransition => 41,
            ContractError::RequestAlreadyFulfilled => 42,
            ContractError::InsufficientBloodUnits => 43,
            ContractError::RequestOverdue => 44,
        }
    }

    /// Returns the numeric code under which this error is reported.
    pub fn code(&self) -> (c: u32)
        ensures
            c == self.code_of(),
    {
        match self {
            ContractError::AlreadyInitialized => 0,
            ContractError::NotInitialized => 1,
            ContractError::Unauthorized => 2,
            ContractError::InvalidAmount => 10,
            ContractError::InvalidAddress => 11,
            ContractError::InvalidInput => 12,
            ContractError::InvalidBloodType => 13,
            ContractError::InvalidStatus => 14,
            ContractError::InvalidTimestamp => 15,
            ContractError::InvalidQuantity => 16,
            ContractError::InvalidExpiration => 17,
            ContractError::AlreadyExists => 20,
            ContractError::NotFound => 21,
            ContractError::Expired => 22,
            ContractError::RequestExpired => 23,
            ContractError::DuplicateRequest => 24,
            ContractError::InsufficientPermissions => 31,
            ContractError::NotAuthorizedHospital => 32,
            ContractError::NotAuthorizedBloodBank => 33,
            ContractError::RequestNotFound => 40,
            ContractError::InvalidStatusTransition => 41,
            ContractError::RequestAlreadyFulfilled => 42,
            ContractError::InsufficientBloodUnits => 43,
            ContractError::RequestOverdue => 44,
        }
    }
}

/// Distinct errors are reported under distinct codes.
pub proof fn lemma_code_is_injective(a: ContractError, b: ContractError)
    requires
        a.code_of() == b.code_of(),
    ensures
        a == b,
{
}

} // verus!
