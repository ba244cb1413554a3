//! A staking ledger for tokenized assets.
//!
//! Stakers deposit units of a value class into an escrow account and withdraw them again;
//! the ledger records what each of them has staked and pays a reward that grows with time.
//! The escrow is controlled by no key: the authority over it is derived from the address of
//! one staking account, and only this program can act as it, for that account alone.
//!
//! The value registry that holds the balances is not part of the ledger. An operation of
//! the ledger is a function from plain values to a staged operation ([`registry::Staged`]):
//! the calls to issue against the registry, the record to write once the registry has
//! applied them, and the event to emit then. [`registry::commit`] ends a staged operation
//! with what the registry said, so that a record never changes on a call that failed.
//!
//! - [`identity`]: thirty-two byte identities.
//! - [`derivation`]: the escrow authority of a staking account.
//! - [`registry`]: the calls against the value registry, staging and commit.
//! - [`asset`]: asset records and their creation.
//! - [`staking`]: the staking account and its life: deposit, withdrawal, closing.
//! - [`accrual`]: rewards and their settlement.
//! - [`authority`]: freeze, thaw, burn and the transfer of authority.
//! - [`price`]: the price record.
//! - [`events`] and [`error`]: what operations emit and how they fail.
//! - [`history`]: what holds of every sequence of operations on one staking account.

pub mod accrual;
pub mod asset;
pub mod authority;
pub mod derivation;
pub mod error;
pub mod events;
pub mod history;
pub mod identity;
pub mod price;
pub mod registry;
pub mod staking;
