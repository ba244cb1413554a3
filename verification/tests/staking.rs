use rwa_tokenization::accrual::{accrue, claim_yield, ClaimYield, DEFAULT_REWARD_RATE_PER_SECOND};
use rwa_tokenization::derivation::derive_escrow_authority;
use rwa_tokenization::error::{CustomError, RegistryError};
use rwa_tokenization::events::{
    ClaimYieldEvent, CloseStakingAccountEvent, StakeEvent, UnstakeEvent,
};
use rwa_tokenization::identity::Identity;
use rwa_tokenization::registry::{commit, EscrowSeeds, RegistryCall};
use rwa_tokenization::staking::{
    close_staking_account, stake_state, stake_tokens, unstake_tokens, unstake_with_authority,
    CloseStakingAccount, StakeState, StakeTokens, StakingAccount, UnstakeTokens,
};

fn named(tag: u8) -> Identity {
    let mut bytes = [0u8; 32];
    bytes[0] = tag;
    bytes[17] = 0xA5;
    Identity::new(bytes)
}

const STAKER: u8 = 1;
const OTHER: u8 = 2;
const MINT: u8 = 3;
const USER_TOKENS: u8 = 4;
const ESCROW: u8 = 5;
const STAKING_KEY: u8 = 6;
const REWARD_MINT: u8 = 7;
const REWARD_ACCOUNT: u8 = 8;
const REWARD_AUTHORITY: u8 = 9;

fn stake_ctx(record: Option<StakingAccount>) -> StakeTokens {
    StakeTokens {
        staker: named(STAKER),
        user_token_account: named(USER_TOKENS),
        escrow_token_account: named(ESCROW),
        mint: named(MINT),
        staking_account: record,
    }
}

fn unstake_ctx(record: Option<StakingAccount>) -> UnstakeTokens {
    let (authority, _) = derive_escrow_authority(&named(STAKING_KEY)).unwrap();
    UnstakeTokens {
        staker: named(STAKER),
        user_token_account: named(USER_TOKENS),
        escrow_token_account: named(ESCROW),
        escrow_authority: authority,
        staking_account_key: named(STAKING_KEY),
        staking_account: record,
    }
}

fn claim_ctx(record: Option<StakingAccount>) -> ClaimYield {
    ClaimYield {
        staker: named(STAKER),
        staking_account: record,
        mint: named(REWARD_MINT),
        user_reward_ata: named(REWARD_ACCOUNT),
        reward_mint_authority: named(REWARD_AUTHORITY),
    }
}

fn close_ctx(record: Option<StakingAccount>, deposit: u64) -> CloseStakingAccount {
    CloseStakingAccount { staker: named(STAKER), staking_account: record, storage_deposit: deposit }
}

fn account(staked: u64, settled: i64) -> StakingAccount {
    StakingAccount {
        staker: named(STAKER),
        mint: named(MINT),
        staked_amount: staked,
        last_claimed_time: settled,
    }
}

/// Stakes `amount` at `now` into `slot`, with a registry that applies every call.
fn stake(slot: &mut Option<StakingAccount>, amount: u64, now: i64) -> Result<StakeEvent, CustomError> {
    let staged = stake_tokens(&stake_ctx(*slot), amount, now)?;
    commit(slot, staged, Ok(()))
}

fn unstake(slot: &mut Option<StakingAccount>, amount: u64, now: i64) -> Result<UnstakeEvent, CustomError> {
    let staged = unstake_tokens(&unstake_ctx(*slot), amount, now)?;
    commit(slot, staged, Ok(()))
}

fn claim(slot: &mut Option<StakingAccount>, now: i64, rate: u64) -> Result<ClaimYieldEvent, CustomError> {
    let staged = claim_yield(&claim_ctx(*slot), now, rate)?;
    commit(slot, staged, Ok(()))
}

fn close(slot: &mut Option<StakingAccount>, deposit: u64, now: i64) -> Result<CloseStakingAccountEvent, CustomError> {
    let staged = close_staking_account(&close_ctx(*slot, deposit), now)?;
    commit(slot, staged, Ok(()))
}

#[test]
fn first_deposit_opens_the_account() {
    let staged = stake_tokens(&stake_ctx(None), 500, 1_700_000_000).unwrap();
    assert_eq!(
        staged.calls,
        vec![RegistryCall::Transfer {
            from: named(USER_TOKENS),
            to: named(ESCROW),
            authority: named(STAKER),
            amount: 500,
            signer: None,
        }]
    );
    assert_eq!(staged.record, Some(account(500, 1_700_000_000)));
    assert_eq!(
        staged.event,
        StakeEvent { staker: named(STAKER), amount: 500, timestamp: 1_700_000_000 }
    );
}

#[test]
fn later_deposit_adds_and_keeps_the_settlement_time() {
    let staged = stake_tokens(&stake_ctx(Some(account(500, 100))), 250, 900).unwrap();
    assert_eq!(staged.record, Some(account(750, 100)));
    assert_eq!(staged.event, StakeEvent { staker: named(STAKER), amount: 250, timestamp: 900 });
}

#[test]
fn deposit_into_an_emptied_account_keeps_its_settlement_time() {
    let staged = stake_tokens(&stake_ctx(Some(account(0, 100))), 1, 900).unwrap();
    assert_eq!(staged.record, Some(account(1, 100)));
}

#[test]
fn deposit_overflow_is_refused() {
    let r = stake_tokens(&stake_ctx(Some(account(u64::MAX, 0))), 1, 5);
    assert_eq!(r, Err(CustomError::Overflow));
    let r = stake_tokens(&stake_ctx(Some(account(u64::MAX - 10, 0))), 11, 5);
    assert_eq!(r, Err(CustomError::Overflow));
    let ok = stake_tokens(&stake_ctx(Some(account(u64::MAX - 10, 0))), 10, 5).unwrap();
    assert_eq!(ok.record, Some(account(u64::MAX, 0)));
}

#[test]
fn deposit_into_the_record_of_another_is_refused() {
    let mut foreign = account(10, 0);
    foreign.staker = named(OTHER);
    assert_eq!(stake_tokens(&stake_ctx(Some(foreign)), 5, 1), Err(CustomError::Unauthorized));
    let mut other_class = account(10, 0);
    other_class.mint = named(REWARD_MINT);
    assert_eq!(stake_tokens(&stake_ctx(Some(other_class)), 5, 1), Err(CustomError::Unauthorized));
}

#[test]
fn record_level_transitions() {
    let opened = StakingAccount::open(named(STAKER), named(MINT), 7, 33);
    assert_eq!(opened, account(7, 33));
    assert_eq!(opened.deposit(3), Ok(account(10, 33)));
    assert_eq!(account(u64::MAX, 0).deposit(1), Err(CustomError::Overflow));
    assert_eq!(opened.withdraw(7), Ok(account(0, 33)));
    assert_eq!(opened.withdraw(2), Ok(account(5, 33)));
    assert_eq!(opened.withdraw(8), Err(CustomError::InsufficientStakedBalance));
    assert_eq!(opened.withdraw(0), Err(CustomError::InsufficientStakedBalance));
    assert_eq!(opened.check_close(&named(STAKER)), Err(CustomError::NonZeroStakedBalance));
    assert_eq!(opened.check_close(&named(OTHER)), Err(CustomError::Unauthorized));
    assert_eq!(account(0, 33).check_close(&named(STAKER)), Ok(()));
    assert_eq!(account(0, 33).check_close(&named(OTHER)), Err(CustomError::Unauthorized));
}

#[test]
fn states_of_the_ledger() {
    assert_eq!(stake_state(&None), StakeState::Absent);
    assert_eq!(stake_state(&Some(account(1, 0))), StakeState::Active);
    assert_eq!(stake_state(&Some(account(0, 0))), StakeState::ActiveZero);
}

#[test]
fn withdrawal_is_authorized_as_the_derived_escrow_authority() {
    let (authority, bump) = derive_escrow_authority(&named(STAKING_KEY)).unwrap();
    let staged = unstake_tokens(&unstake_ctx(Some(account(500, 40))), 200, 77).unwrap();
    assert_eq!(
        staged.calls,
        vec![RegistryCall::Transfer {
            from: named(ESCROW),
            to: named(USER_TOKENS),
            authority,
            amount: 200,
            signer: Some(EscrowSeeds { staking_account: named(STAKING_KEY), bump }),
        }]
    );
    assert_eq!(staged.record, Some(account(300, 40)));
    assert_eq!(staged.event, UnstakeEvent { staker: named(STAKER), amount: 200, timestamp: 77 });
}

#[test]
fn withdrawal_of_more_than_staked_fails_and_changes_nothing() {
    let mut slot = None;
    stake(&mut slot, 500, 10).unwrap();
    assert_eq!(unstake(&mut slot, 600, 20), Err(CustomError::InsufficientStakedBalance));
    assert_eq!(slot, Some(account(500, 10)));
    assert_eq!(unstake(&mut slot, 501, 20), Err(CustomError::InsufficientStakedBalance));
    assert_eq!(slot.unwrap().staked_amount, 500);
}

#[test]
fn withdrawal_of_nothing_is_refused() {
    let r = unstake_tokens(&unstake_ctx(Some(account(500, 10))), 0, 20);
    assert_eq!(r, Err(CustomError::InsufficientStakedBalance));
    let r = unstake_tokens(&unstake_ctx(Some(account(0, 10))), 0, 20);
    assert_eq!(r, Err(CustomError::InsufficientStakedBalance));
}

#[test]
fn withdrawal_of_everything_leaves_an_empty_active_account() {
    let mut slot = Some(account(500, 10));
    let event = unstake(&mut slot, 500, 20).unwrap();
    assert_eq!(event.amount, 500);
    assert_eq!(slot, Some(account(0, 10)));
    assert_eq!(stake_state(&slot), StakeState::ActiveZero);
}

#[test]
fn withdrawal_from_an_absent_account_fails() {
    assert_eq!(unstake_tokens(&unstake_ctx(None), 1, 5), Err(CustomError::AccountNotFound));
}

#[test]
fn withdrawal_with_a_foreign_escrow_authority_is_refused() {
    let mut ctx = unstake_ctx(Some(account(500, 10)));
    let (other_authority, _) = derive_escrow_authority(&named(OTHER)).unwrap();
    ctx.escrow_authority = other_authority;
    assert_eq!(unstake_tokens(&ctx, 100, 20), Err(CustomError::Unauthorized));
    ctx.escrow_authority = named(STAKER);
    assert_eq!(unstake_tokens(&ctx, 100, 20), Err(CustomError::Unauthorized));
}

#[test]
fn withdrawal_against_another_staking_account_is_refused() {
    let mut ctx = unstake_ctx(Some(account(500, 10)));
    ctx.staking_account_key = named(OTHER);
    assert_eq!(unstake_tokens(&ctx, 100, 20), Err(CustomError::Unauthorized));
}

#[test]
fn withdrawal_from_the_record_of_another_is_refused() {
    let mut foreign = account(500, 10);
    foreign.staker = named(OTHER);
    assert_eq!(
        unstake_tokens(&unstake_ctx(Some(foreign)), 100, 20),
        Err(CustomError::Unauthorized)
    );
}

#[test]
fn withdrawal_without_a_derivable_authority_fails() {
    let ctx = unstake_ctx(Some(account(500, 10)));
    assert_eq!(
        unstake_with_authority(&ctx, 100, 20, None),
        Err(CustomError::DerivationFailed)
    );
}

#[test]
fn withdrawal_checks_come_in_order() {
    let mut foreign = account(500, 10);
    foreign.staker = named(OTHER);
    let found = Some((named(ESCROW), 250u8));
    let mut ctx = unstake_ctx(None);
    ctx.escrow_authority = named(ESCROW);
    assert_eq!(unstake_with_authority(&ctx, 0, 1, None), Err(CustomError::AccountNotFound));
    ctx.staking_account = Some(foreign);
    assert_eq!(unstake_with_authority(&ctx, 0, 1, None), Err(CustomError::DerivationFailed));
    assert_eq!(unstake_with_authority(&ctx, 0, 1, found), Err(CustomError::Unauthorized));
    ctx.staking_account = Some(account(500, 10));
    assert_eq!(
        unstake_with_authority(&ctx, 0, 1, found),
        Err(CustomError::InsufficientStakedBalance)
    );
    let staged = unstake_with_authority(&ctx, 500, 1, found).unwrap();
    assert_eq!(
        staged.calls,
        vec![RegistryCall::Transfer {
            from: named(ESCROW),
            to: named(USER_TOKENS),
            authority: named(ESCROW),
            amount: 500,
            signer: Some(EscrowSeeds { staking_account: named(STAKING_KEY), bump: 250 }),
        }]
    );
    assert_eq!(
        unstake_with_authority(&ctx, 500, 1, Some((named(ESCROW), 250u8))).unwrap().record,
        Some(account(0, 10))
    );
    assert_eq!(
        unstake_with_authority(&ctx, 500, 1, Some((named(OTHER), 250u8))),
        Err(CustomError::Unauthorized)
    );
}

#[test]
fn claim_after_ten_seconds_at_rate_ten() {
    let mut slot = None;
    stake(&mut slot, 500, 1_000).unwrap();
    let staged = claim_yield(&claim_ctx(slot), 1_010, DEFAULT_REWARD_RATE_PER_SECOND).unwrap();
    assert_eq!(
        staged.calls,
        vec![RegistryCall::MintTo {
            mint: named(REWARD_MINT),
            to: named(REWARD_ACCOUNT),
            authority: named(REWARD_AUTHORITY),
            amount: 100,
        }]
    );
    assert_eq!(
        staged.event,
        ClaimYieldEvent { staker: named(STAKER), amount: 100, timestamp: 1_010 }
    );
    let event = commit(&mut slot, staged, Ok(())).unwrap();
    assert_eq!(event.amount, 100);
    assert_eq!(slot, Some(account(500, 1_010)));
    assert_eq!(slot.unwrap().last_claimed_time - 1_000, 10);
}

#[test]
fn default_rate_is_ten_per_second() {
    assert_eq!(DEFAULT_REWARD_RATE_PER_SECOND, 10);
}

#[test]
fn accrual_formula() {
    assert_eq!(accrue(&account(500, 1_000), 1_010, 10), Ok(100));
    assert_eq!(accrue(&account(0, 1_000), 1_010, 10), Ok(100));
    assert_eq!(accrue(&account(1, -5), 5, 3), Ok(30));
    assert_eq!(accrue(&account(1, 7), 7, 1_000), Ok(0));
    assert_eq!(accrue(&account(1, 0), 86_400, 0), Ok(0));
    assert_eq!(accrue(&account(1, i64::MIN), i64::MAX, 1), Ok(u64::MAX));
}

#[test]
fn accrual_rejects_a_clock_that_went_back() {
    assert_eq!(accrue(&account(500, 1_000), 999, 10), Err(CustomError::ClockRegression));
    assert_eq!(accrue(&account(500, i64::MAX), i64::MIN, 0), Err(CustomError::ClockRegression));
    let mut slot = Some(account(500, 1_000));
    assert_eq!(claim(&mut slot, 999, 10), Err(CustomError::ClockRegression));
    assert_eq!(slot, Some(account(500, 1_000)));
}

#[test]
fn accrual_overflow_is_refused() {
    assert_eq!(accrue(&account(500, 0), 2, u64::MAX), Err(CustomError::Overflow));
    assert_eq!(accrue(&account(500, 0), 1, u64::MAX), Ok(u64::MAX));
    assert_eq!(accrue(&account(1, i64::MIN), i64::MAX, 2), Err(CustomError::Overflow));
    let r = claim_yield(&claim_ctx(Some(account(500, 0))), i64::MAX, 3);
    assert_eq!(r, Err(CustomError::Overflow));
}

#[test]
fn claim_on_an_absent_account_fails() {
    assert_eq!(claim_yield(&claim_ctx(None), 5, 10), Err(CustomError::AccountNotFound));
}

#[test]
fn claim_on_the_record_of_another_is_refused() {
    let mut foreign = account(500, 0);
    foreign.staker = named(OTHER);
    assert_eq!(claim_yield(&claim_ctx(Some(foreign)), 5, 10), Err(CustomError::Unauthorized));
}

#[test]
fn claim_from_an_emptied_account_still_settles() {
    let mut slot = Some(account(0, 100));
    let event = claim(&mut slot, 130, 10).unwrap();
    assert_eq!(event.amount, 300);
    assert_eq!(slot, Some(account(0, 130)));
}

#[test]
fn two_claims_pay_what_one_claim_over_the_whole_time_pays() {
    let (t0, t1, t2, rate) = (1_000i64, 1_004i64, 1_010i64, 10u64);
    let mut twice = Some(account(500, t0));
    let first = claim(&mut twice, t1, rate).unwrap();
    let second = claim(&mut twice, t2, rate).unwrap();
    assert_eq!(first.amount, 40);
    assert_eq!(second.amount, 60);
    let mut once = Some(account(500, t0));
    let whole = claim(&mut once, t2, rate).unwrap();
    assert_eq!(whole.amount, 100);
    assert_eq!(first.amount + second.amount, whole.amount);
    assert_eq!(once, twice);
}

#[test]
fn repeated_claim_at_the_same_time_pays_nothing_more() {
    let mut slot = Some(account(500, 1_000));
    assert_eq!(claim(&mut slot, 1_010, 10).unwrap().amount, 100);
    assert_eq!(claim(&mut slot, 1_010, 10).unwrap().amount, 0);
    assert_eq!(slot, Some(account(500, 1_010)));
}

#[test]
fn close_is_refused_while_anything_is_staked() {
    let r = close_staking_account(&close_ctx(Some(account(1, 0)), 2_000_000), 9);
    assert_eq!(r, Err(CustomError::NonZeroStakedBalance));
    let r = close_staking_account(&close_ctx(Some(account(u64::MAX, 0)), 2_000_000), 9);
    assert_eq!(r, Err(CustomError::NonZeroStakedBalance));
}

#[test]
fn close_is_refused_for_anyone_but_the_staker() {
    let mut ctx = close_ctx(Some(account(0, 0)), 2_000_000);
    ctx.staker = named(OTHER);
    assert_eq!(close_staking_account(&ctx, 9), Err(CustomError::Unauthorized));
    ctx.staking_account = Some(account(5, 0));
    assert_eq!(close_staking_account(&ctx, 9), Err(CustomError::Unauthorized));
}

#[test]
fn close_of_an_absent_account_fails() {
    assert_eq!(
        close_staking_account(&close_ctx(None, 2_000_000), 9),
        Err(CustomError::AccountNotFound)
    );
}

#[test]
fn stake_withdraw_all_close_then_claim_fails() {
    let mut slot = None;
    stake(&mut slot, 500, 1_000).unwrap();
    unstake(&mut slot, 500, 1_005).unwrap();
    assert_eq!(slot, Some(account(0, 1_000)));
    let staged = close_staking_account(&close_ctx(slot, 2_039_280), 1_006).unwrap();
    assert!(staged.calls.is_empty());
    assert_eq!(staged.record, None);
    assert_eq!(
        staged.event,
        CloseStakingAccountEvent { staker: named(STAKER), refund: 2_039_280, timestamp: 1_006 }
    );
    let event = commit(&mut slot, staged, Ok(())).unwrap();
    assert_eq!(event.refund, 2_039_280);
    assert_eq!(slot, None);
    assert_eq!(stake_state(&slot), StakeState::Absent);
    assert_eq!(claim(&mut slot, 1_010, 10), Err(CustomError::AccountNotFound));
    assert_eq!(unstake(&mut slot, 1, 1_010), Err(CustomError::AccountNotFound));
    assert_eq!(close(&mut slot, 0, 1_010), Err(CustomError::AccountNotFound));
}

#[test]
fn reopening_after_close_starts_a_fresh_account() {
    let mut slot = None;
    stake(&mut slot, 500, 1_000).unwrap();
    unstake(&mut slot, 500, 1_005).unwrap();
    close(&mut slot, 10, 1_006).unwrap();
    stake(&mut slot, 40, 5_000).unwrap();
    assert_eq!(slot, Some(account(40, 5_000)));
}

#[test]
fn staked_amount_is_deposits_less_withdrawals() {
    let mut slot = None;
    let mut deposits: u64 = 0;
    let mut withdrawals: u64 = 0;
    for (i, amount) in [500u64, 20, 7, 1_000_000, 3].iter().enumerate() {
        stake(&mut slot, *amount, 100 + i as i64).unwrap();
        deposits += amount;
        if unstake(&mut slot, amount / 2 + 1, 200 + i as i64).is_ok() {
            withdrawals += amount / 2 + 1;
        }
        assert_eq!(unstake(&mut slot, u64::MAX, 0), Err(CustomError::InsufficientStakedBalance));
        claim(&mut slot, 300 + i as i64, 10).unwrap();
        assert_eq!(slot.unwrap().staked_amount, deposits - withdrawals);
    }
    assert_eq!(deposits, 1_000_530);
    assert_eq!(withdrawals, 251 + 11 + 4 + 500_001 + 2);
    assert_eq!(slot.unwrap().staked_amount, 500_261);
}

#[test]
fn refused_registry_call_leaves_the_record_alone() {
    let mut slot = Some(account(500, 10));
    let staged = stake_tokens(&stake_ctx(slot), 100, 20).unwrap();
    let r = commit(&mut slot, staged, Err(RegistryError::InsufficientFunds));
    assert_eq!(r, Err(CustomError::InsufficientFunds));
    assert_eq!(slot, Some(account(500, 10)));

    let staged = unstake_tokens(&unstake_ctx(slot), 100, 20).unwrap();
    let r = commit(&mut slot, staged, Err(RegistryError::AccountFrozen));
    assert_eq!(r, Err(CustomError::AccountFrozen));
    assert_eq!(slot, Some(account(500, 10)));

    let staged = claim_yield(&claim_ctx(slot), 30, 10).unwrap();
    let r = commit(&mut slot, staged, Err(RegistryError::Unauthorized));
    assert_eq!(r, Err(CustomError::Unauthorized));
    assert_eq!(slot, Some(account(500, 10)));

    let mut absent = None;
    let staged = stake_tokens(&stake_ctx(absent), 100, 20).unwrap();
    let r = commit(&mut absent, staged, Err(RegistryError::Other(42)));
    assert_eq!(r, Err(CustomError::RegistryFailure(42)));
    assert_eq!(absent, None);
}
