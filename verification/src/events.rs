//! The records that successful operations emit for observers outside the ledger. Each one
//! names, by its type, the operation that emitted it, and carries the actor, the amount
//! where there is one, and the time of the operation. Nothing is ever decided by them.

use vstd::prelude::*;
use crate::identity::Identity;
use crate::registry::AuthorityType;

verus! {

/// An asset was created and its whole supply issued.
#[derive(Clone, Copy, Debug, PartialEq, Eq)]
pub struct InitializeAssetEvent {
    pub creator: Identity,
    pub mint: Identity,
    pub total_supply: u64,
    pub timestamp: i64,
}

/// The locator of an asset record was replaced.
#[derive(Clone, Copy, Debug, PartialEq, Eq)]
pub struct UpdateMetadataEvent {
    pub updater: Identity,
    pub timestamp: i64,
}

/// An account was blocked for transfers.
#[derive(Clone, Copy, Debug, PartialEq, Eq)]
pub struct FreezeEvent {
    pub freezer: Identity,
    pub timestamp: i64,
}

/// The block was lifted from an account.
#[derive(Clone, Copy, Debug, PartialEq, Eq)]
pub struct ThawEvent {
    pub freezer: Identity,
    pub timestamp: i64,
}

/// Units of a value class were destroyed.
#[derive(Clone, Copy, Debug, PartialEq, Eq)]
pub struct BurnEvent {
    pub authority: Identity,
    pub amount: u64,
    pub timestamp: i64,
}

/// A staker deposited into escrow.
#[derive(Clone, Copy, Debug, PartialEq, Eq)]
pub struct StakeEvent {
    pub staker: Identity,
    pub amount: u64,
    pub timestamp: i64,
}

/// A staker withdrew from escrow.
#[derive(Clone, Copy, Debug, PartialEq, Eq)]
pub struct UnstakeEvent {
    pub staker: Identity,
    pub amount: u64,
    pub timestamp: i64,
}

/// A staker was paid the reward accrued since the last settlement.
#[derive(Clone, Copy, Debug, PartialEq, Eq)]
pub struct ClaimYieldEvent {
    pub staker: Identity,
    pub amount: u64,
    pub timestamp: i64,
}

/// A staking account was destroyed and its storage deposit handed back.
#[derive(Clone, Copy, Debug, PartialEq, Eq)]
pub struct CloseStakingAccountEvent {
    pub staker: Identity,
    pub refund: u64,
    pub timestamp: i64,
}

/// One kind of authority over a value class went to a new holder.
#[derive(Clone, Copy, Debug, PartialEq, Eq)]
pub struct TransferAuthorityEvent {
    pub old_authority: Identity,
    pub new_authority: Identity,
    pub authority_type: AuthorityType,
    pub timestamp: i64,
}

/// A price record was overwritten.
#[derive(Clone, Copy, Debug, PartialEq, Eq)]
pub struct UpdatePriceEvent {
    pub updater: Identity,
    pub price: u64,
    pub timestamp: i64,
}

} // verus!
