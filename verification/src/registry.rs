//! The calls that the ledger issues against the value registry, and the staging
//! discipline around them: an operation first stages its calls, the record it means to
//! write and the event it means to emit; the record is written and the event emitted
//! only once the registry has applied every call.

use vstd::prelude::*;
use crate::error::{CustomError, RegistryError};
use crate::identity::Identity;

verus! {

/// Which administrative control of a value class an authority transfer hands over.
#[derive(Clone, Copy, Debug, PartialEq, Eq)]
pub enum AuthorityType {
    /// The right to create new units of the value class.
    MintTokens,
    /// The right to block and unblock accounts of the value class.
    FreezeAccount,
}

/// What lets the program act as the escrow authority of one staking account: the address
/// of that account and the discriminator of the derivation.
#[derive(Clone, Copy, Debug, PartialEq, Eq)]
pub struct EscrowSeeds {
    pub staking_account: Identity,
    pub bump: u8,
}

/// One call against the value registry. The registry applies a call as a whole or
/// refuses it as a whole.
#[derive(Clone, Copy, Debug, PartialEq, Eq)]
pub enum RegistryCall {
    /// Create the value class `mint` with the given decimals and authorities.
    InitializeMint {
        mint: Identity,
        decimals: u8,
        mint_authority: Identity,
        freeze_authority: Option<Identity>,
    },
    /// Create `amount` new units of `mint` in the account `to`.
    MintTo { mint: Identity, to: Identity, authority: Identity, amount: u64 },
    /// Move `amount` from one account to another. Where `signer` is given, the program
    /// acts as the derived authority that these seeds belong to.
    Transfer {
        from: Identity,
        to: Identity,
        authority: Identity,
        amount: u64,
        signer: Option<EscrowSeeds>,
    },
    /// Block the account for transfers.
    FreezeAccount { account: Identity, mint: Identity, authority: Identity },
    /// Lift the block from the account.
    ThawAccount { account: Identity, mint: Identity, authority: Identity },
    /// Destroy `amount` units held in the account `from`.
    Burn { from: Identity, mint: Identity, authority: Identity, amount: u64 },
    /// Hand one kind of authority over a value class to a new holder.
    SetAuthority {
        account_or_mint: Identity,
        current_authority: Identity,
        authority_type: AuthorityType,
        new_authority: Option<Identity>,
    },
}

/// An operation that the ledger has admitted and that waits for the registry:
/// the calls to issue, in order, the record to write once all of them are applied, and
/// the event to emit then.
#[derive(Debug, PartialEq, Eq)]
pub struct Staged<R, E> {
    pub calls: Vec<RegistryCall>,
    pub record: R,
    pub event: E,
}

/// A staged operation as a mathematical value: the calls as a sequence.
pub struct StagedView<R, E> {
    pub calls: Seq<RegistryCall>,
    pub record: R,
    pub event: E,
}

impl<R, E> View for Staged<R, E> {
    type V = StagedView<R, E>;

    open spec fn view(&self) -> StagedView<R, E> {
        StagedView { calls: self.calls@, record: self.record, event: self.event }
    }
}

/// The result of an operation of the ledger, with a staged operation seen through its
/// view.
pub open spec fn outcome_view<R, E>(r: Result<Staged<R, E>, CustomError>) -> Result<StagedView<R, E>, CustomError> {
    match r {
        Ok(staged) => Ok(staged@),
        Err(e) => Err(e),
    }
}

/// What is stored once a staged operation has ended: the staged record where the registry
/// applied the calls, and what was stored before where it refused.
pub open spec fn committed<R>(before: R, staged: R, outcome: Result<(), RegistryError>) -> R {
    match outcome {
        Ok(_) => staged,
        Err(_) => before,
    }
}

/// Ends a staged operation. Where the registry applied the calls, the staged record
/// replaces what `slot` held and the event is handed out. Where it refused, `slot` keeps
/// its value and the refusal is reported as the failure kind it stands for.
pub fn commit<R, E>(slot: &mut R, staged: Staged<R, E>, outcome: Result<(), RegistryError>) -> (r: Result<E, CustomError>)
    ensures
        *final(slot) == committed(*old(slot), staged.record, outcome),
        match outcome {
            Ok(_) => r == Ok::<E, CustomError>(staged.event),
            Err(e) => r == Err::<E, CustomError>(CustomError::of_registry(e)),
        },
{
    match outcome {
        Ok(_) => {
            *slot = staged.record;
            Ok(staged.event)
        },
        Err(e) => Err(CustomError::from_registry(e)),
    }
}

} // verus!
