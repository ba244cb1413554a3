//! The staking ledger. Under each key of staker and value class there is at most one
//! staking account, which is absent, active (something is staked) or active with nothing
//! staked. A deposit opens an absent account or adds to a present one, a withdrawal takes
//! from it, and only an account with nothing staked can be closed, which makes it absent
//! again.

use vstd::prelude::*;
use crate::derivation::{derived_view, escrow_authority, find_escrow_authority};
use crate::error::CustomError;
use crate::events::{CloseStakingAccountEvent, StakeEvent, UnstakeEvent};
use crate::identity::Identity;
use crate::registry::{outcome_view, EscrowSeeds, RegistryCall, Staged, StagedView};

verus! {

/// The claim of one staker against the escrow of one value class.
#[derive(Clone, Copy, Debug, PartialEq, Eq)]
pub struct StakingAccount {
    pub staker: Identity,
    pub mint: Identity,
    pub staked_amount: u64,
    pub last_claimed_time: i64,
}

/// Where the staking account of one key stands in its life.
#[derive(Clone, Copy, Debug, PartialEq, Eq)]
pub enum StakeState {
    /// No record exists: never opened, or closed.
    Absent,
    /// A record exists and something is staked.
    Active,
    /// A record exists and nothing is staked.
    ActiveZero,
}

/// The state that a stored record, or its absence, stands for.
pub open spec fn state_of(record: Option<StakingAccount>) -> StakeState {
    match record {
        None => StakeState::Absent,
        Some(account) => if account.staked_amount > 0 {
            StakeState::Active
        } else {
            StakeState::ActiveZero
        },
    }
}

/// The amount staked under a key: that of its record, and nothing where there is none.
pub open spec fn staked_of(record: Option<StakingAccount>) -> int {
    match record {
        None => 0,
        Some(account) => account.staked_amount as int,
    }
}

/// Tells the state of the staking account of a key from what is stored under it.
pub fn stake_state(record: &Option<StakingAccount>) -> (state: StakeState)
    ensures
        state == state_of(*record),
{
    match record {
        None => StakeState::Absent,
        Some(account) => if account.staked_amount > 0 {
            StakeState::Active
        } else {
            StakeState::ActiveZero
        },
    }
}

impl StakingAccount {
    /// The account that a first deposit of `amount` at time `now` opens.
    pub open spec fn opened(staker: Identity, mint: Identity, amount: u64, now: i64) -> StakingAccount {
        StakingAccount { staker, mint, staked_amount: amount, last_claimed_time: now }
    }

    /// This account after a deposit of `amount`, or `Overflow` where the sum does not fit.
    pub open spec fn deposited(self, amount: u64) -> Result<StakingAccount, CustomError> {
        if self.staked_amount + amount <= u64::MAX {
            Ok(StakingAccount { staked_amount: (self.staked_amount + amount) as u64, ..self })
        } else {
            Err(CustomError::Overflow)
        }
    }

    /// This account after a withdrawal of `amount`, or `InsufficientStakedBalance` where
    /// the amount is nothing or more than is staked.
    pub open spec fn withdrawn(self, amount: u64) -> Result<StakingAccount, CustomError> {
        if 0 < amount <= self.staked_amount {
            Ok(StakingAccount { staked_amount: (self.staked_amount - amount) as u64, ..self })
        } else {
            Err(CustomError::InsufficientStakedBalance)
        }
    }

    /// Why `caller` may not close this account, if anything: it is not the staker's own
    /// (`Unauthorized`), or something is still staked (`NonZeroStakedBalance`).
    pub open spec fn close_refusal(self, caller: Identity) -> Option<CustomError> {
        if self.staker != caller {
            Some(CustomError::Unauthorized)
        } else if self.staked_amount > 0 {
            Some(CustomError::NonZeroStakedBalance)
        } else {
            None
        }
    }

    /// Opens the account of a key with its first deposit. The settlement time starts at
    /// `now`.
    pub fn open(staker: Identity, mint: Identity, amount: u64, now: i64) -> (account: StakingAccount)
        requires
            amount > 0,
        ensures
            account == StakingAccount::opened(staker, mint, amount, now),
            state_of(Some(account)) == StakeState::Active,
    {
        StakingAccount { staker, mint, staked_amount: amount, last_claimed_time: now }
    }

    /// Adds a deposit to the staked amount. Nothing else changes; the addition is checked
    /// and fails with `Overflow` exactly when the sum leaves the range of `u64`.
    pub fn deposit(&self, amount: u64) -> (r: Result<StakingAccount, CustomError>)
        requires
            amount > 0,
        ensures
            r == self.deposited(amount),
            r matches Ok(account) ==> state_of(Some(account)) == StakeState::Active
                && account.last_claimed_time == self.last_claimed_time,
    {
        match self.staked_amount.checked_add(amount) {
            Some(total) => Ok(
                StakingAccount {
                    staker: self.staker,
                    mint: self.mint,
                    staked_amount: total,
                    last_claimed_time: self.last_claimed_time,
                },
            ),
            None => Err(CustomError::Overflow),
        }
    }

    /// Takes a withdrawal from the staked amount. It succeeds exactly when
    /// `0 < amount <= staked_amount`, and then the new amount is the old one less
    /// `amount`; every other attempt fails with `InsufficientStakedBalance`.
    pub fn withdraw(&self, amount: u64) -> (r: Result<StakingAccount, CustomError>)
        ensures
            r == self.withdrawn(amount),
            match r {
                Ok(account) => 0 < amount <= self.staked_amount
                    && account.staked_amount == self.staked_amount - amount
                    && (state_of(Some(account)) == StakeState::ActiveZero <==> amount
                    == self.staked_amount),
                Err(e) => e == CustomError::InsufficientStakedBalance && (amount == 0 || amount
                    > self.staked_amount),
            },
    {
        if amount == 0 || amount > self.staked_amount {
            return Err(CustomError::InsufficientStakedBalance);
        }
        Ok(
            StakingAccount {
                staker: self.staker,
                mint: self.mint,
                staked_amount: self.staked_amount - amount,
                last_claimed_time: self.last_claimed_time,
            },
        )
    }

    /// Decides whether `caller` may close this account: only its staker may, and only
    /// while nothing is staked.
    pub fn check_close(&self, caller: &Identity) -> (r: Result<(), CustomError>)
        ensures
            r is Ok <==> self.close_refusal(*caller) is None,
            r matches Err(e) ==> self.close_refusal(*caller) == Some(e),
            r is Ok ==> self.staked_amount == 0 && self.staker == *caller,
    {
        if !self.staker.same(caller) {
            Err(CustomError::Unauthorized)
        } else if self.staked_amount > 0 {
            Err(CustomError::NonZeroStakedBalance)
        } else {
            Ok(())
        }
    }
}

/// What a deposit needs: the staker, the account to take from, the escrow account to pay
/// into, the value class, and what is stored under the key of staker and value class.
#[derive(Clone, Copy, Debug, PartialEq, Eq)]
pub struct StakeTokens {
    pub staker: Identity,
    pub user_token_account: Identity,
    pub escrow_token_account: Identity,
    pub mint: Identity,
    pub staking_account: Option<StakingAccount>,
}

/// What a withdrawal needs: the staker, the account to pay into, the escrow account to
/// take from, the identity presented as escrow authority, and the staking account with
/// its address.
#[derive(Clone, Copy, Debug, PartialEq, Eq)]
pub struct UnstakeTokens {
    pub staker: Identity,
    pub user_token_account: Identity,
    pub escrow_token_account: Identity,
    pub escrow_authority: Identity,
    pub staking_account_key: Identity,
    pub staking_account: Option<StakingAccount>,
}

/// What closing needs: the caller, what is stored under the key, and the storage deposit
/// that backs the record.
#[derive(Clone, Copy, Debug, PartialEq, Eq)]
pub struct CloseStakingAccount {
    pub staker: Identity,
    pub staking_account: Option<StakingAccount>,
    pub storage_deposit: u64,
}

/// The record that a deposit leaves under the key: a fresh account where there was none,
/// the old one with `amount` more where there was one. A stored record that belongs to
/// another staker or value class is not touched (`Unauthorized`).
pub open spec fn stake_record(ctx: StakeTokens, amount: u64, now: i64) -> Result<StakingAccount, CustomError> {
    match ctx.staking_account {
        None => Ok(StakingAccount::opened(ctx.staker, ctx.mint, amount, now)),
        Some(account) => if account.staker != ctx.staker || account.mint != ctx.mint {
            Err(CustomError::Unauthorized)
        } else {
            account.deposited(amount)
        },
    }
}

/// What a deposit stages: one transfer of `amount` from the staker's account into escrow,
/// signed by the staker; the record of `stake_record`; and the event of the deposit.
pub open spec fn stake_outcome(ctx: StakeTokens, amount: u64, now: i64) -> Result<
    StagedView<Option<StakingAccount>, StakeEvent>,
    CustomError,
> {
    match stake_record(ctx, amount, now) {
        Err(e) => Err(e),
        Ok(account) => Ok(
            StagedView {
                calls: seq![
                    RegistryCall::Transfer {
                        from: ctx.user_token_account,
                        to: ctx.escrow_token_account,
                        authority: ctx.staker,
                        amount,
                        signer: None,
                    },
                ],
                record: Some(account),
                event: StakeEvent { staker: ctx.staker, amount, timestamp: now },
            },
        ),
    }
}

/// Stages a deposit of `amount` at time `now`. The staked amount grows by exactly the
/// amount of the one transfer that is staged with it.
pub fn stake_tokens(ctx: &StakeTokens, amount: u64, now: i64) -> (r: Result<
    Staged<Option<StakingAccount>, StakeEvent>,
    CustomError,
>)
    requires
        amount > 0,
    ensures
        outcome_view(r) == stake_outcome(*ctx, amount, now),
        r matches Ok(staged) ==> staked_of(staged.record) == staked_of(ctx.staking_account)
            + amount,
{
    let account = match &ctx.staking_account {
        None => StakingAccount::open(ctx.staker, ctx.mint, amount, now),
        Some(present) => {
            if !present.staker.same(&ctx.staker) || !present.mint.same(&ctx.mint) {
                return Err(CustomError::Unauthorized);
            }
            match present.deposit(amount) {
                Ok(account) => account,
                Err(e) => {
                    return Err(e);
                },
            }
        },
    };
    let mut calls: Vec<RegistryCall> = Vec::new();
    calls.push(
        RegistryCall::Transfer {
            from: ctx.user_token_account,
            to: ctx.escrow_token_account,
            authority: ctx.staker,
            amount,
            signer: None,
        },
    );
    Ok(
        Staged {
            calls,
            record: Some(account),
            event: StakeEvent { staker: ctx.staker, amount, timestamp: now },
        },
    )
}

/// Why a withdrawal is refused, if it is, given what the derivation for the staking
/// account yields. In this order: no record is stored (`AccountNotFound`); no authority
/// can be derived (`DerivationFailed`); the presented identity is not the derived one, or
/// the record is not the staker's own (`Unauthorized`); the amount is nothing or more than
/// is staked (`InsufficientStakedBalance`).
pub open spec fn unstake_refusal(ctx: UnstakeTokens, amount: u64, derived: Option<(Seq<u8>, u8)>) -> Option<CustomError> {
    match ctx.staking_account {
        None => Some(CustomError::AccountNotFound),
        Some(account) => match derived {
            None => Some(CustomError::DerivationFailed),
            Some((authority, bump)) => if authority != ctx.escrow_authority@ || account.staker
                != ctx.staker {
                Some(CustomError::Unauthorized)
            } else if !(0 < amount <= account.staked_amount) {
                Some(CustomError::InsufficientStakedBalance)
            } else {
                None
            },
        },
    }
}

/// What a withdrawal stages, given what the derivation for the staking account yields:
/// one transfer of `amount` out of escrow to the staker, authorized as the derived escrow
/// authority with the seeds of this staking account; the record with `amount` less; and
/// the event of the withdrawal.
pub open spec fn unstake_outcome(ctx: UnstakeTokens, amount: u64, now: i64, derived: Option<(Seq<u8>, u8)>) -> Result<
    StagedView<Option<StakingAccount>, UnstakeEvent>,
    CustomError,
> {
    match unstake_refusal(ctx, amount, derived) {
        Some(e) => Err(e),
        None => Ok(
            StagedView {
                calls: seq![
                    RegistryCall::Transfer {
                        from: ctx.escrow_token_account,
                        to: ctx.user_token_account,
                        authority: ctx.escrow_authority,
                        amount,
                        signer: Some(
                            EscrowSeeds {
                                staking_account: ctx.staking_account_key,
                                bump: derived->Some_0.1,
                            },
                        ),
                    },
                ],
                record: Some(
                    StakingAccount {
                        staked_amount: (ctx.staking_account->Some_0.staked_amount - amount) as u64,
                        ..ctx.staking_account->Some_0
                    },
                ),
                event: UnstakeEvent { staker: ctx.staker, amount, timestamp: now },
            },
        ),
    }
}

/// Stages a withdrawal once the derivation for the staking account has been made:
/// `found` is what it yielded.
pub fn unstake_with_authority(ctx: &UnstakeTokens, amount: u64, now: i64, found: Option<(Identity, u8)>) -> (r: Result<
    Staged<Option<StakingAccount>, UnstakeEvent>,
    CustomError,
>)
    ensures
        outcome_view(r) == unstake_outcome(*ctx, amount, now, derived_view(found)),
        r matches Ok(staged) ==> 0 < amount <= staked_of(ctx.staking_account) && staked_of(
            staged.record,
        ) == staked_of(ctx.staking_account) - amount,
{
    let account = match &ctx.staking_account {
        None => {
            return Err(CustomError::AccountNotFound);
        },
        Some(account) => account,
    };
    let (authority, bump) = match found {
        None => {
            return Err(CustomError::DerivationFailed);
        },
        Some(pair) => pair,
    };
    if !authority.same(&ctx.escrow_authority) || !account.staker.same(&ctx.staker) {
        return Err(CustomError::Unauthorized);
    }
    let remaining = match account.withdraw(amount) {
        Ok(remaining) => remaining,
        Err(e) => {
            return Err(e);
        },
    };
    let mut calls: Vec<RegistryCall> = Vec::new();
    calls.push(
        RegistryCall::Transfer {
            from: ctx.escrow_token_account,
            to: ctx.user_token_account,
            authority,
            amount,
            signer: Some(EscrowSeeds { staking_account: ctx.staking_account_key, bump }),
        },
    );
    Ok(
        Staged {
            calls,
            record: Some(remaining),
            event: UnstakeEvent { staker: ctx.staker, amount, timestamp: now },
        },
    )
}

/// Stages a withdrawal of `amount` at time `now`. The escrow authority is derived anew
/// for the staking account at hand, and the transfer out of escrow is authorized as that
/// identity and no other. A withdrawal never succeeds for nothing or for more than is
/// staked.
pub fn unstake_tokens(ctx: &UnstakeTokens, amount: u64, now: i64) -> (r: Result<
    Staged<Option<StakingAccount>, UnstakeEvent>,
    CustomError,
>)
    ensures
        outcome_view(r) == unstake_outcome(
            *ctx,
            amount,
            now,
            escrow_authority(ctx.staking_account_key@),
        ),
        r matches Ok(staged) ==> 0 < amount <= staked_of(ctx.staking_account) && staked_of(
            staged.record,
        ) == staked_of(ctx.staking_account) - amount,
{
    let found = find_escrow_authority(&ctx.staking_account_key);
    unstake_with_authority(ctx, amount, now, found)
}

/// What closing stages: no call, the absence of the record, and the event that hands the
/// storage deposit back to the staker. It is refused with `AccountNotFound` where no
/// record is stored, and else as `close_refusal` says.
pub open spec fn close_outcome(ctx: CloseStakingAccount, now: i64) -> Result<
    StagedView<Option<StakingAccount>, CloseStakingAccountEvent>,
    CustomError,
> {
    match ctx.staking_account {
        None => Err(CustomError::AccountNotFound),
        Some(account) => match account.close_refusal(ctx.staker) {
            Some(e) => Err(e),
            None => Ok(
                StagedView {
                    calls: Seq::empty(),
                    record: None,
                    event: CloseStakingAccountEvent {
                        staker: ctx.staker,
                        refund: ctx.storage_deposit,
                        timestamp: now,
                    },
                },
            ),
        },
    }
}

/// Stages the closing of a staking account. It never succeeds while anything is staked,
/// nor for a caller other than the staker. On success the record is gone and the whole
/// storage deposit goes back to the staker.
pub fn close_staking_account(ctx: &CloseStakingAccount, now: i64) -> (r: Result<
    Staged<Option<StakingAccount>, CloseStakingAccountEvent>,
    CustomError,
>)
    ensures
        outcome_view(r) == close_outcome(*ctx, now),
        r is Ok ==> state_of(ctx.staking_account) == StakeState::ActiveZero,
        r matches Ok(staged) ==> state_of(staged.record) == StakeState::Absent,
{
    let account = match &ctx.staking_account {
        None => {
            return Err(CustomError::AccountNotFound);
        },
        Some(account) => account,
    };
    match account.check_close(&ctx.staker) {
        Err(e) => Err(e),
        Ok(_) => {
            Ok(
                Staged {
                    calls: Vec::new(),
                    record: None,
                    event: CloseStakingAccountEvent {
                        staker: ctx.staker,
                        refund: ctx.storage_deposit,
                        timestamp: now,
                    },
                },
            )
        },
    }
}

} // verus!
