//! Failure kinds reported by the ledger and by the value registry.

use vstd::prelude::*;

verus! {

/// Why an operation was refused. Every refusal leaves all records as they were.
#[derive(Clone, Copy, Debug, PartialEq, Eq)]
pub enum CustomError {
    /// The actor lacks the capability or signature the operation asks for.
    Unauthorized,
    /// A checked arithmetic operation left the range of its type.
    Overflow,
    /// A withdrawal asked for nothing, or for more than is staked.
    InsufficientStakedBalance,
    /// A staking account can only be closed once nothing is staked in it.
    NonZeroStakedBalance,
    /// An asset record already exists for this creator and name.
    DuplicateAsset,
    /// The value registry found too small a balance in the source account.
    InsufficientFunds,
    /// The value registry found the account blocked for transfers.
    AccountFrozen,
    /// The clock reads earlier than the last settlement of the account.
    ClockRegression,
    /// No record is stored under the key the operation names.
    AccountNotFound,
    /// A name, symbol or locator is longer than its record field allows.
    FieldTooLong,
    /// No escrow authority can be derived: every discriminator was tried in vain.
    DerivationFailed,
    /// The value registry refused the call for a reason it reports as a number.
    RegistryFailure(u32),
}

/// How the value registry can refuse a call.
#[derive(Clone, Copy, Debug, PartialEq, Eq)]
pub enum RegistryError {
    /// The authority named in the call does not control the account or value class.
    Unauthorized,
    /// The source account holds less than the amount asked for.
    InsufficientFunds,
    /// The account is blocked for transfers.
    AccountFrozen,
    /// Any other refusal, with the number the registry reports.
    Other(u32),
}

impl CustomError {
    /// The failure kind a caller sees when the registry refuses a call.
    pub open spec fn of_registry(e: RegistryError) -> CustomError {
        match e {
            RegistryError::Unauthorized => CustomError::Unauthorized,
            RegistryError::InsufficientFunds => CustomError::InsufficientFunds,
            RegistryError::AccountFrozen => CustomError::AccountFrozen,
            RegistryError::Other(code) => CustomError::RegistryFailure(code),
        }
    }

    /// Turns a refusal of the registry into the failure kind reported to the caller.
    pub fn from_registry(e: RegistryError) -> (r: CustomError)
        ensures
            r == CustomError::of_registry(e),
    {
        match e {
            RegistryError::Unauthorized => CustomError::Unauthorized,
            RegistryError::InsufficientFunds => CustomError::InsufficientFunds,
            RegistryError::AccountFrozen => CustomError::AccountFrozen,
            RegistryError::Other(code) => CustomError::RegistryFailure(code),
        }
    }

    /// The text shown for each failure kind.
    pub open spec fn message_of(self) -> Seq<char> {
        match self {
            CustomError::Unauthorized => "You are not authorized to perform this action."@,
            CustomError::Overflow => "Operation caused an overflow."@,
            CustomError::InsufficientStakedBalance => "Insufficient staked balance."@,
            CustomError::NonZeroStakedBalance =>
                "Staked balance must be zero before closing the account."@,
            CustomError::DuplicateAsset => "An asset with this name already exists."@,
            CustomError::InsufficientFunds => "Insufficient funds."@,
            CustomError::AccountFrozen => "The account is frozen."@,
            CustomError::ClockRegression => "The clock is behind the last settlement."@,
            CustomError::AccountNotFound => "The account does not exist."@,
            CustomError::FieldTooLong => "A text field is too long."@,
            CustomError::DerivationFailed => "No escrow authority could be derived."@,
            CustomError::RegistryFailure(_) => "The value registry refused the operation."@,
        }
    }

    /// The text shown to a user for this failure.
    pub fn message(&self) -> (text: &'static str)
        ensures
            text@ == self.message_of(),
    {
        match self {
            CustomError::Unauthorized => "You are not authorized to perform this action.",
            CustomError::Overflow => "Operation caused an overflow.",
            CustomError::InsufficientStakedBalance => "Insufficient staked balance.",
            CustomError::NonZeroStakedBalance =>
                "Staked balance must be zero before closing the account.",
            CustomError::DuplicateAsset => "An asset with this name already exists.",
            CustomError::InsufficientFunds => "Insufficient funds.",
            CustomError::AccountFrozen => "The account is frozen.",
            CustomError::ClockRegression => "The clock is behind the last settlement.",
            CustomError::AccountNotFound => "The account does not exist.",
            CustomError::FieldTooLong => "A text field is too long.",
            CustomError::DerivationFailed => "No escrow authority could be derived.",
            CustomError::RegistryFailure(_) => "The value registry refused the operation.",
        }
    }
}

} // verus!
