//! Operations that only pass a request on to the value registry: blocking and unblocking
//! an account, destroying units, and handing the control of a value class to a new
//! holder. The ledger keeps no state for them; whether the authority named in the call is
//! the right one is for the registry to decide.

use vstd::prelude::*;
use crate::events::{BurnEvent, FreezeEvent, ThawEvent, TransferAuthorityEvent};
use crate::identity::Identity;
use crate::registry::{AuthorityType, RegistryCall, Staged, StagedView};

verus! {

/// What blocking an account needs: the freeze authority, the account, its value class.
#[derive(Clone, Copy, Debug, PartialEq, Eq)]
pub struct FreezeTokens {
    pub freezer: Identity,
    pub token_account: Identity,
    pub mint: Identity,
}

/// What unblocking an account needs: the freeze authority, the account, its value class.
#[derive(Clone, Copy, Debug, PartialEq, Eq)]
pub struct ThawTokens {
    pub freezer: Identity,
    pub token_account: Identity,
    pub mint: Identity,
}

/// What destroying units needs: the authority over the account, the account, its value
/// class.
#[derive(Clone, Copy, Debug, PartialEq, Eq)]
pub struct BurnTokens {
    pub authority: Identity,
    pub from: Identity,
    pub mint: Identity,
}

/// What a transfer of authority needs: the present holder, the value class, and the new
/// holder.
#[derive(Clone, Copy, Debug, PartialEq, Eq)]
pub struct TransferAuthority {
    pub current_authority: Identity,
    pub mint: Identity,
    pub new_authority: Identity,
}

/// Stages the blocking of an account: the one call that asks the registry for it, under
/// the freezer's authority.
pub fn freeze_tokens(ctx: &FreezeTokens, now: i64) -> (staged: Staged<(), FreezeEvent>)
    ensures
        staged@ == (StagedView {
            calls: seq![
                RegistryCall::FreezeAccount {
                    account: ctx.token_account,
                    mint: ctx.mint,
                    authority: ctx.freezer,
                },
            ],
            record: (),
            event: FreezeEvent { freezer: ctx.freezer, timestamp: now },
        }),
{
    let mut calls: Vec<RegistryCall> = Vec::new();
    calls.push(
        RegistryCall::FreezeAccount {
            account: ctx.token_account,
            mint: ctx.mint,
            authority: ctx.freezer,
        },
    );
    Staged {
        calls,
        record: (),
        event: FreezeEvent { freezer: ctx.freezer, timestamp: now },
    }
}

/// Stages the unblocking of an account: the one call that asks the registry for it, under
/// the freezer's authority.
pub fn thaw_tokens(ctx: &ThawTokens, now: i64) -> (staged: Staged<(), ThawEvent>)
    ensures
        staged@ == (StagedView {
            calls: seq![
                RegistryCall::ThawAccount {
                    account: ctx.token_account,
                    mint: ctx.mint,
                    authority: ctx.freezer,
                },
            ],
            record: (),
            event: ThawEvent { freezer: ctx.freezer, timestamp: now },
        }),
{
    let mut calls: Vec<RegistryCall> = Vec::new();
    calls.push(
        RegistryCall::ThawAccount {
            account: ctx.token_account,
            mint: ctx.mint,
            authority: ctx.freezer,
        },
    );
    Staged { calls, record: (), event: ThawEvent { freezer: ctx.freezer, timestamp: now } }
}

/// Stages the destruction of `amount` units: the one call that asks the registry for it.
pub fn burn_tokens(ctx: &BurnTokens, amount: u64, now: i64) -> (staged: Staged<(), BurnEvent>)
    ensures
        staged@ == (StagedView {
            calls: seq![
                RegistryCall::Burn {
                    from: ctx.from,
                    mint: ctx.mint,
                    authority: ctx.authority,
                    amount,
                },
            ],
            record: (),
            event: BurnEvent { authority: ctx.authority, amount, timestamp: now },
        }),
{
    let mut calls: Vec<RegistryCall> = Vec::new();
    calls.push(
        RegistryCall::Burn { from: ctx.from, mint: ctx.mint, authority: ctx.authority, amount },
    );
    Staged {
        calls,
        record: (),
        event: BurnEvent { authority: ctx.authority, amount, timestamp: now },
    }
}

/// Stages the transfer of one kind of authority over a value class: a single call, from
/// the present holder to the new one, and the event that records both and the kind. The
/// ledger cannot take the transfer back: only the new holder can pass the authority on.
pub fn transfer_mint_authority(ctx: &TransferAuthority, authority_type: AuthorityType, now: i64) -> (staged: Staged<
    (),
    TransferAuthorityEvent,
>)
    ensures
        staged@ == (StagedView {
            calls: seq![
                RegistryCall::SetAuthority {
                    account_or_mint: ctx.mint,
                    current_authority: ctx.current_authority,
                    authority_type,
                    new_authority: Some(ctx.new_authority),
                },
            ],
            record: (),
            event: TransferAuthorityEvent {
                old_authority: ctx.current_authority,
                new_authority: ctx.new_authority,
                authority_type,
                timestamp: now,
            },
        }),
{
    let mut calls: Vec<RegistryCall> = Vec::new();
    calls.push(
        RegistryCall::SetAuthority {
            account_or_mint: ctx.mint,
            current_authority: ctx.current_authority,
            authority_type,
            new_authority: Some(ctx.new_authority),
        },
    );
    Staged {
        calls,
        record: (),
        event: TransferAuthorityEvent {
            old_authority: ctx.current_authority,
            new_authority: ctx.new_authority,
            authority_type,
            timestamp: now,
        },
    }
}

} // verus!
