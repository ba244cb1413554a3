//! Reward accrual: a reward grows linearly with the time since the last settlement of a
//! staking account, and every claim moves the settlement time forward, so that no
//! interval is ever paid twice.

use vstd::prelude::*;
use crate::error::CustomError;
use crate::events::ClaimYieldEvent;
use crate::identity::Identity;
use crate::registry::{outcome_view, RegistryCall, Staged, StagedView};
use crate::staking::StakingAccount;

verus! {

/// Reward units per second of the placeholder policy.
pub const DEFAULT_REWARD_RATE_PER_SECOND: u64 = 10;

/// The reward for `elapsed` seconds at `rate` units per second.
pub open spec fn reward(elapsed: int, rate: int) -> int {
    elapsed * rate
}

/// The reward that `account` has accrued at time `now`: `ClockRegression` where `now` is
/// before the last settlement, `Overflow` where the reward does not fit in `u64`, and
/// else the reward for the time since the last settlement.
pub open spec fn accrued(account: StakingAccount, now: i64, rate: u64) -> Result<u64, CustomError> {
    if now < account.last_claimed_time {
        Err(CustomError::ClockRegression)
    } else if reward(now - account.last_claimed_time, rate as int) > u64::MAX {
        Err(CustomError::Overflow)
    } else {
        Ok(reward(now - account.last_claimed_time, rate as int) as u64)
    }
}

/// The account after a settlement at time `now`: only the settlement time changes.
pub open spec fn settled(account: StakingAccount, now: i64) -> StakingAccount {
    StakingAccount { last_claimed_time: now, ..account }
}

/// Computes the reward accrued since the last settlement. A clock that reads earlier than
/// the last settlement is rejected, never clamped; the multiplication is checked.
pub fn accrue(account: &StakingAccount, now: i64, rate: u64) -> (r: Result<u64, CustomError>)
    ensures
        r == accrued(*account, now, rate),
        r matches Ok(amount) ==> now >= account.last_claimed_time && amount == (now
            - account.last_claimed_time) * rate,
{
    if now < account.last_claimed_time {
        return Err(CustomError::ClockRegression);
    }
    let elapsed: u64 = (now as i128 - account.last_claimed_time as i128) as u64;
    match elapsed.checked_mul(rate) {
        Some(amount) => Ok(amount),
        None => Err(CustomError::Overflow),
    }
}

/// What a claim needs: the staker, what is stored under the staker's key, the reward
/// value class, the account that receives the reward, and the authority that may issue
/// rewards.
#[derive(Clone, Copy, Debug, PartialEq, Eq)]
pub struct ClaimYield {
    pub staker: Identity,
    pub staking_account: Option<StakingAccount>,
    pub mint: Identity,
    pub user_reward_ata: Identity,
    pub reward_mint_authority: Identity,
}

/// The reward that a claim pays, or why it is refused. In this order: no record is stored
/// (`AccountNotFound`); the record is not the staker's own (`Unauthorized`); and then as
/// `accrued` says.
pub open spec fn claim_amount(ctx: ClaimYield, now: i64, rate: u64) -> Result<u64, CustomError> {
    match ctx.staking_account {
        None => Err(CustomError::AccountNotFound),
        Some(account) => if account.staker != ctx.staker {
            Err(CustomError::Unauthorized)
        } else {
            accrued(account, now, rate)
        },
    }
}

/// What a claim stages: the issue of the accrued reward to the staker's reward account
/// under the reward authority; the record settled at `now`, with the staked amount as it
/// was; and the event of the claim.
pub open spec fn claim_outcome(ctx: ClaimYield, now: i64, rate: u64) -> Result<
    StagedView<Option<StakingAccount>, ClaimYieldEvent>,
    CustomError,
> {
    match claim_amount(ctx, now, rate) {
        Err(e) => Err(e),
        Ok(amount) => Ok(
            StagedView {
                calls: seq![
                    RegistryCall::MintTo {
                        mint: ctx.mint,
                        to: ctx.user_reward_ata,
                        authority: ctx.reward_mint_authority,
                        amount,
                    },
                ],
                record: Some(settled(ctx.staking_account->Some_0, now)),
                event: ClaimYieldEvent { staker: ctx.staker, amount, timestamp: now },
            },
        ),
    }
}

/// Stages a claim at time `now` under a reward rate of `rate` units per second. The
/// settlement time moves to `now` and never backwards; the staked amount stays.
pub fn claim_yield(ctx: &ClaimYield, now: i64, rate: u64) -> (r: Result<
    Staged<Option<StakingAccount>, ClaimYieldEvent>,
    CustomError,
>)
    ensures
        outcome_view(r) == claim_outcome(*ctx, now, rate),
        r matches Ok(staged) ==> ctx.staking_account matches Some(before) && staged.record
            matches Some(after) && after.staked_amount == before.staked_amount
            && after.last_claimed_time == now && now >= before.last_claimed_time
            && staged.event.amount == (now - before.last_claimed_time) * rate,
{
    let account = match &ctx.staking_account {
        None => {
            return Err(CustomError::AccountNotFound);
        },
        Some(account) => account,
    };
    if !account.staker.same(&ctx.staker) {
        return Err(CustomError::Unauthorized);
    }
    let amount = match accrue(account, now, rate) {
        Ok(amount) => amount,
        Err(e) => {
            return Err(e);
        },
    };
    let mut calls: Vec<RegistryCall> = Vec::new();
    calls.push(
        RegistryCall::MintTo {
            mint: ctx.mint,
            to: ctx.user_reward_ata,
            authority: ctx.reward_mint_authority,
            amount,
        },
    );
    Ok(
        Staged {
            calls,
            record: Some(
                StakingAccount {
                    staker: account.staker,
                    mint: account.mint,
                    staked_amount: account.staked_amount,
                    last_claimed_time: now,
                },
            ),
            event: ClaimYieldEvent { staker: ctx.staker, amount, timestamp: now },
        },
    )
}

} // verus!
