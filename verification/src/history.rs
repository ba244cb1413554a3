//! What holds of every history of one staking account: whatever operations are attempted
//! on the record of a key, by whomever and in whatever order, and whichever of them the
//! value registry lets through.

use vstd::prelude::*;
use crate::accrual::{claim_outcome, reward, ClaimYield};
use crate::derivation::escrow_authority;
use crate::error::{CustomError, RegistryError};
use crate::identity::Identity;
use crate::registry::{committed, RegistryCall};
use crate::staking::{
    close_outcome, stake_outcome, staked_of, state_of, unstake_outcome, CloseStakingAccount,
    StakeState, StakeTokens, StakingAccount, UnstakeTokens,
};

verus! {

/// One operation attempted on the record of a key. The record named in the context does
/// not count: in a history each attempt meets the record that the attempts before it
/// have left.
pub enum Attempt {
    Stake { stake: StakeTokens, amount: u64 },
    Unstake { unstake: UnstakeTokens, amount: u64 },
    Claim { claim: ClaimYield, rate: u64 },
    Close { close: CloseStakingAccount },
}

/// One step of a history: an attempt, the time it is made at, and what the value registry
/// said to the calls that the attempt staged.
pub struct Step {
    pub attempt: Attempt,
    pub now: i64,
    pub outcome: Result<(), RegistryError>,
}

/// The record that a step stages when it meets `record`, or the refusal of the attempt.
pub open spec fn staged_record(record: Option<StakingAccount>, step: Step) -> Result<
    Option<StakingAccount>,
    CustomError,
> {
    match step.attempt {
        Attempt::Stake { stake, amount } => match stake_outcome(
            StakeTokens { staking_account: record, ..stake },
            amount,
            step.now,
        ) {
            Ok(staged) => Ok(staged.record),
            Err(e) => Err(e),
        },
        Attempt::Unstake { unstake, amount } => match unstake_outcome(
            UnstakeTokens { staking_account: record, ..unstake },
            amount,
            step.now,
            escrow_authority(unstake.staking_account_key@),
        ) {
            Ok(staged) => Ok(staged.record),
            Err(e) => Err(e),
        },
        Attempt::Claim { claim, rate } => match claim_outcome(
            ClaimYield { staking_account: record, ..claim },
            step.now,
            rate,
        ) {
            Ok(staged) => Ok(staged.record),
            Err(e) => Err(e),
        },
        Attempt::Close { close } => match close_outcome(
            CloseStakingAccount { staking_account: record, ..close },
            step.now,
        ) {
            Ok(staged) => Ok(staged.record),
            Err(e) => Err(e),
        },
    }
}

/// Whether a step that meets `record` commits: the ledger staged it and the registry
/// applied its calls.
pub open spec fn commits(record: Option<StakingAccount>, step: Step) -> bool {
    step.outcome is Ok && staged_record(record, step) is Ok
}

/// The record after a step: what ending the staged operation leaves, and the old record
/// where the ledger refused the attempt.
pub open spec fn after(record: Option<StakingAccount>, step: Step) -> Option<StakingAccount> {
    match staged_record(record, step) {
        Ok(staged) => committed(record, staged, step.outcome),
        Err(_) => record,
    }
}

/// The record after a whole history that starts from `record`.
pub open spec fn replay(record: Option<StakingAccount>, steps: Seq<Step>) -> Option<StakingAccount>
    decreases steps.len(),
{
    if steps.len() == 0 {
        record
    } else {
        after(replay(record, steps.drop_last()), steps.last())
    }
}

/// What a step adds to the staked amount by its own account: the amount of a committed
/// deposit, the amount of a committed withdrawal taken off, and nothing otherwise.
pub open spec fn committed_amount(record: Option<StakingAccount>, step: Step) -> int {
    if !commits(record, step) {
        0
    } else {
        match step.attempt {
            Attempt::Stake { amount, .. } => amount as int,
            Attempt::Unstake { amount, .. } => -(amount as int),
            _ => 0,
        }
    }
}

/// The committed deposits of a history less its committed withdrawals.
pub open spec fn net_deposits(record: Option<StakingAccount>, steps: Seq<Step>) -> int
    decreases steps.len(),
{
    if steps.len() == 0 {
        0
    } else {
        net_deposits(record, steps.drop_last()) + committed_amount(
            replay(record, steps.drop_last()),
            steps.last(),
        )
    }
}

/// A history is valid where every deposit in it is of more than nothing.
pub open spec fn valid_history(steps: Seq<Step>) -> bool {
    forall|i: int|
        0 <= i < steps.len() ==> (#[trigger] steps[i].attempt matches Attempt::Stake {
            amount,
            ..
        } ==> amount > 0)
}

/// One step changes the staked amount by what it commits, and by nothing else.
pub proof fn lemma_step_changes_stake_by_committed_amount(record: Option<StakingAccount>, step: Step)
    ensures
        staked_of(after(record, step)) == staked_of(record) + committed_amount(record, step),
{
}

/// After any valid history, the staked amount is what the history began with, plus the
/// committed deposits, less the committed withdrawals.
pub proof fn lemma_stake_follows_history(record: Option<StakingAccount>, steps: Seq<Step>)
    requires
        valid_history(steps),
    ensures
        staked_of(replay(record, steps)) == staked_of(record) + net_deposits(record, steps),
    decreases steps.len(),
{
    if steps.len() > 0 {
        let earlier = steps.drop_last();
        lemma_stake_follows_history(record, earlier);
        lemma_step_changes_stake_by_committed_amount(replay(record, earlier), steps.last());
    }
}

/// For a key that starts out absent, the staked amount after any valid history equals
/// the sum of the committed deposits less the sum of the committed withdrawals.
pub proof fn lemma_staked_amount_is_net_deposits(steps: Seq<Step>)
    requires
        valid_history(steps),
    ensures
        staked_of(replay(None, steps)) == net_deposits(None, steps),
{
    lemma_stake_follows_history(None, steps);
}

/// The life of a staking account: from absence only a committed deposit leads on, and it
/// leads to an active account; a record goes away only by a committed closing, by its own
/// staker, while nothing is staked.
pub proof fn lemma_life_cycle(record: Option<StakingAccount>, step: Step)
    requires
        step.attempt matches Attempt::Stake { amount, .. } ==> amount > 0,
    ensures
        record is None && after(record, step) is Some ==> step.attempt is Stake && state_of(
            after(record, step),
        ) == StakeState::Active,
        record is Some && after(record, step) is None ==> (step.attempt matches Attempt::Close {
            close,
        } && close.staker == record->Some_0.staker) && state_of(record)
            == StakeState::ActiveZero,
        after(record, step) != record ==> commits(record, step),
{
}

/// While a record lives, its settlement time never moves backwards: a step leaves a
/// record with a settlement time no earlier than that of the record it met.
pub proof fn lemma_settlement_time_never_decreases(account: StakingAccount, step: Step)
    ensures
        after(Some(account), step) matches Some(next) ==> next.last_claimed_time
            >= account.last_claimed_time,
{
}

/// Two claims in a row, at `t1` and then at `t2`, with nothing else in between. Where
/// both succeed, the second pays the reward for the time from `t1` to `t2` and no more,
/// and both together pay the reward for the whole time from the settlement before them
/// to `t2`; a single claim at `t2` in their place succeeds exactly when that reward fits
/// in `u64`, and then pays that same amount and leaves the same record.
pub proof fn lemma_accrual_is_additive(ctx: ClaimYield, t1: i64, t2: i64, rate: u64)
    requires
        t1 < t2,
    ensures
        ({
            let first = claim_outcome(ctx, t1, rate);
            let second = claim_outcome(
                ClaimYield { staking_account: first->Ok_0.record, ..ctx },
                t2,
                rate,
            );
            let whole = claim_outcome(ctx, t2, rate);
            let t0 = ctx.staking_account->Some_0.last_claimed_time;
            first is Ok && second is Ok ==> {
                &&& t0 <= t1
                &&& first->Ok_0.event.amount == reward(t1 - t0, rate as int)
                &&& second->Ok_0.event.amount == reward(t2 - t1, rate as int)
                &&& first->Ok_0.event.amount + second->Ok_0.event.amount == reward(
                    t2 - t0,
                    rate as int,
                )
                &&& whole is Ok <==> reward(t2 - t0, rate as int) <= u64::MAX
                &&& whole matches Ok(single) ==> single.event.amount == first->Ok_0.event.amount
                    + second->Ok_0.event.amount && single.record == second->Ok_0.record
            }
        }),
{
    let t0 = ctx.staking_account->Some_0.last_claimed_time;
    assert((t1 - t0) * (rate as int) + (t2 - t1) * (rate as int) == (t2 - t0) * (rate as int))
        by (nonlinear_arith);
}

/// What a call adds to the balance of an account: what it moves or issues into it, less
/// what it moves out of it or destroys in it.
pub open spec fn inflow(call: RegistryCall, account: Identity) -> int {
    match call {
        RegistryCall::Transfer { from, to, amount, .. } => (if to == account {
            amount as int
        } else {
            0
        }) - (if from == account {
            amount as int
        } else {
            0
        }),
        RegistryCall::MintTo { to, amount, .. } => if to == account {
            amount as int
        } else {
            0
        },
        RegistryCall::Burn { from, amount, .. } => if from == account {
            -(amount as int)
        } else {
            0
        },
        _ => 0,
    }
}

/// What a list of calls adds to the balance of an account, all of them applied.
pub open spec fn inflow_of(calls: Seq<RegistryCall>, account: Identity) -> int
    decreases calls.len(),
{
    if calls.len() == 0 {
        0
    } else {
        inflow_of(calls.drop_last(), account) + inflow(calls.last(), account)
    }
}

/// The calls that a step stages when it meets `record`; none where the attempt is
/// refused.
pub open spec fn staged_calls(record: Option<StakingAccount>, step: Step) -> Seq<RegistryCall> {
    match step.attempt {
        Attempt::Stake { stake, amount } => match stake_outcome(
            StakeTokens { staking_account: record, ..stake },
            amount,
            step.now,
        ) {
            Ok(staged) => staged.calls,
            Err(_) => Seq::empty(),
        },
        Attempt::Unstake { unstake, amount } => match unstake_outcome(
            UnstakeTokens { staking_account: record, ..unstake },
            amount,
            step.now,
            escrow_authority(unstake.staking_account_key@),
        ) {
            Ok(staged) => staged.calls,
            Err(_) => Seq::empty(),
        },
        Attempt::Claim { claim, rate } => match claim_outcome(
            ClaimYield { staking_account: record, ..claim },
            step.now,
            rate,
        ) {
            Ok(staged) => staged.calls,
            Err(_) => Seq::empty(),
        },
        Attempt::Close { close } => match close_outcome(
            CloseStakingAccount { staking_account: record, ..close },
            step.now,
        ) {
            Ok(staged) => staged.calls,
            Err(_) => Seq::empty(),
        },
    }
}

/// What the committed steps of a history add to the balance of an account.
pub open spec fn committed_inflow(record: Option<StakingAccount>, steps: Seq<Step>, account: Identity) -> int
    decreases steps.len(),
{
    if steps.len() == 0 {
        0
    } else {
        let met = replay(record, steps.drop_last());
        committed_inflow(record, steps.drop_last(), account) + (if commits(met, steps.last()) {
            inflow_of(staged_calls(met, steps.last()), account)
        } else {
            0
        })
    }
}

/// A step keeps to the escrow account `escrow`: deposits pay into it and withdrawals
/// draw on it, from and to some other account, and rewards are paid elsewhere.
pub open spec fn keeps_to(step: Step, escrow: Identity) -> bool {
    match step.attempt {
        Attempt::Stake { stake, .. } => stake.escrow_token_account == escrow
            && stake.user_token_account != escrow,
        Attempt::Unstake { unstake, .. } => unstake.escrow_token_account == escrow
            && unstake.user_token_account != escrow,
        Attempt::Claim { claim, .. } => claim.user_reward_ata != escrow,
        Attempt::Close { .. } => true,
    }
}

/// One step that keeps to the escrow account moves into it exactly what it adds to the
/// staked amount.
pub proof fn lemma_step_moves_what_it_stakes(record: Option<StakingAccount>, step: Step, escrow: Identity)
    requires
        keeps_to(step, escrow),
        commits(record, step),
    ensures
        inflow_of(staged_calls(record, step), escrow) == staked_of(after(record, step))
            - staked_of(record),
{
    let calls = staged_calls(record, step);
    if calls.len() == 1 {
        assert(inflow_of(calls, escrow) == inflow_of(calls.drop_last(), escrow) + inflow(
            calls.last(),
            escrow,
        ));
    }
}

/// The staked amount never parts from what went through the escrow account: over any
/// history whose steps keep to one escrow account, what the committed steps moved into
/// that account, less what they moved out of it, is what the staked amount has grown by.
pub proof fn lemma_escrow_flow_matches_stake(record: Option<StakingAccount>, steps: Seq<Step>, escrow: Identity)
    requires
        forall|i: int| 0 <= i < steps.len() ==> keeps_to(#[trigger] steps[i], escrow),
    ensures
        committed_inflow(record, steps, escrow) == staked_of(replay(record, steps)) - staked_of(
            record,
        ),
    decreases steps.len(),
{
    if steps.len() > 0 {
        let earlier = steps.drop_last();
        lemma_escrow_flow_matches_stake(record, earlier, escrow);
        let met = replay(record, earlier);
        if commits(met, steps.last()) {
            lemma_step_moves_what_it_stakes(met, steps.last(), escrow);
        }
    }
}

/// The program acts as a derived authority in one place only. A call that a step stages
/// carries the seeds of a derived authority only if the step is a withdrawal; the seeds
/// are then those of the staking account at hand, the authority of the call is the escrow
/// authority derived for that account, and the call moves out of the escrow account of
/// the withdrawal no more than is staked.
pub proof fn lemma_acts_only_as_own_escrow_authority(record: Option<StakingAccount>, step: Step, i: int)
    requires
        0 <= i < staged_calls(record, step).len(),
    ensures
        match staged_calls(record, step)[i] {
            RegistryCall::Transfer { from, authority, amount, signer: Some(seeds), .. } => {
                &&& step.attempt matches Attempt::Unstake { unstake, .. }
                &&& seeds.staking_account == unstake.staking_account_key
                &&& escrow_authority(seeds.staking_account@) == Some((authority@, seeds.bump))
                &&& from == unstake.escrow_token_account
                &&& 0 < amount <= staked_of(record)
            },
            _ => true,
        },
{
}

} // verus!
