//! The asset registry: one record per asset, bound to the value class created with it.
//! A record is created once, and only its locator can change afterwards, at the hand of
//! its creator.

use vstd::prelude::*;
use crate::error::CustomError;
use crate::events::{InitializeAssetEvent, UpdateMetadataEvent};
use crate::identity::Identity;
use crate::registry::{outcome_view, RegistryCall, Staged, StagedView};

verus! {

broadcast use vstd::slice::group_slice_axioms;

/// The most bytes that the name of an asset may take.
pub const MAX_NAME_BYTES: usize = 50;

/// The most bytes that the symbol of an asset may take.
pub const MAX_SYMBOL_BYTES: usize = 10;

/// The most bytes that the locator of an asset may take.
pub const MAX_URI_BYTES: usize = 200;

/// The record of one asset: who created it, the value class that stands for it, and its
/// descriptive texts.
#[derive(Clone, Debug, PartialEq, Eq)]
pub struct AssetAccount {
    pub creator: Identity,
    pub mint: Identity,
    pub asset_name: String,
    pub symbol: String,
    pub uri: String,
}

/// The number of bytes that a text takes when stored.
pub open spec fn stored_len(text: Seq<char>) -> nat {
    vstd::utf8::encode_utf8(text).len()
}

impl AssetAccount {
    /// Every text of the record fits the field that stores it.
    pub open spec fn well_formed(self) -> bool {
        &&& stored_len(self.asset_name@) <= MAX_NAME_BYTES
        &&& stored_len(self.symbol@) <= MAX_SYMBOL_BYTES
        &&& stored_len(self.uri@) <= MAX_URI_BYTES
    }
}

/// Whether a text takes at most `limit` bytes when stored.
pub fn fits(text: &String, limit: usize) -> (r: bool)
    ensures
        r == (stored_len(text@) <= limit),
{
    text.as_str().as_bytes().len() <= limit
}

/// What the creation of an asset needs: the creator, who pays and holds every authority
/// at first; what is stored under the key of creator and name; the value class to
/// create; and the account that receives the supply.
#[derive(Clone, Debug, PartialEq, Eq)]
pub struct InitializeAsset {
    pub payer: Identity,
    pub asset_account: Option<AssetAccount>,
    pub mint: Identity,
    pub destination_token_account: Identity,
}

/// What a change of locator needs: who asks for it, and the record.
#[derive(Clone, Debug, PartialEq, Eq)]
pub struct UpdateMetadata {
    pub updater: Identity,
    pub asset_account: AssetAccount,
}

/// What the creation of an asset stages: the creation of the value class with the creator
/// as mint and freeze authority, then the issue of the whole supply to the destination
/// under the creator's authority; the new record; and the event of the creation. It is
/// refused with `DuplicateAsset` where a record is stored under the key already, and else
/// with `FieldTooLong` where a text does not fit its field.
pub open spec fn initialize_outcome(
    ctx: InitializeAsset,
    asset_name: String,
    symbol: String,
    uri: String,
    decimals: u8,
    total_supply: u64,
    now: i64,
) -> Result<StagedView<Option<AssetAccount>, InitializeAssetEvent>, CustomError> {
    let record = AssetAccount { creator: ctx.payer, mint: ctx.mint, asset_name, symbol, uri };
    if ctx.asset_account is Some {
        Err(CustomError::DuplicateAsset)
    } else if !record.well_formed() {
        Err(CustomError::FieldTooLong)
    } else {
        Ok(
            StagedView {
                calls: seq![
                    RegistryCall::InitializeMint {
                        mint: ctx.mint,
                        decimals,
                        mint_authority: ctx.payer,
                        freeze_authority: Some(ctx.payer),
                    },
                    RegistryCall::MintTo {
                        mint: ctx.mint,
                        to: ctx.destination_token_account,
                        authority: ctx.payer,
                        amount: total_supply,
                    },
                ],
                record: Some(record),
                event: InitializeAssetEvent {
                    creator: ctx.payer,
                    mint: ctx.mint,
                    total_supply,
                    timestamp: now,
                },
            },
        )
    }
}

/// Stages the creation of an asset: exactly one value class is created, and the whole of
/// `total_supply` is issued to the destination account.
pub fn initialize_asset(
    ctx: &InitializeAsset,
    asset_name: String,
    symbol: String,
    uri: String,
    decimals: u8,
    total_supply: u64,
    now: i64,
) -> (r: Result<Staged<Option<AssetAccount>, InitializeAssetEvent>, CustomError>)
    ensures
        outcome_view(r) == initialize_outcome(
            *ctx,
            asset_name,
            symbol,
            uri,
            decimals,
            total_supply,
            now,
        ),
        r matches Ok(staged) ==> staged.record matches Some(record) && record.well_formed(),
{
    if ctx.asset_account.is_some() {
        return Err(CustomError::DuplicateAsset);
    }
    if !fits(&asset_name, MAX_NAME_BYTES) || !fits(&symbol, MAX_SYMBOL_BYTES) || !fits(
        &uri,
        MAX_URI_BYTES,
    ) {
        return Err(CustomError::FieldTooLong);
    }
    let mut calls: Vec<RegistryCall> = Vec::new();
    calls.push(
        RegistryCall::InitializeMint {
            mint: ctx.mint,
            decimals,
            mint_authority: ctx.payer,
            freeze_authority: Some(ctx.payer),
        },
    );
    calls.push(
        RegistryCall::MintTo {
            mint: ctx.mint,
            to: ctx.destination_token_account,
            authority: ctx.payer,
            amount: total_supply,
        },
    );
    let staged = Staged {
        calls,
        record: Some(AssetAccount { creator: ctx.payer, mint: ctx.mint, asset_name, symbol, uri }),
        event: InitializeAssetEvent {
            creator: ctx.payer,
            mint: ctx.mint,
            total_supply,
            timestamp: now,
        },
    };
    assert(staged@.calls =~= initialize_outcome(
        *ctx,
        asset_name,
        symbol,
        uri,
        decimals,
        total_supply,
        now,
    )->Ok_0.calls);
    Ok(staged)
}

/// What a change of locator stages: no call, the record with the new locator and all else
/// as it was, and the event of the change. It is refused with `Unauthorized` unless the
/// updater is the creator of the record, and else with `FieldTooLong` where the locator
/// does not fit its field.
pub open spec fn update_outcome(ctx: UpdateMetadata, new_uri: String, now: i64) -> Result<
    StagedView<AssetAccount, UpdateMetadataEvent>,
    CustomError,
> {
    if ctx.updater != ctx.asset_account.creator {
        Err(CustomError::Unauthorized)
    } else if stored_len(new_uri@) > MAX_URI_BYTES {
        Err(CustomError::FieldTooLong)
    } else {
        Ok(
            StagedView {
                calls: Seq::empty(),
                record: AssetAccount { uri: new_uri, ..ctx.asset_account },
                event: UpdateMetadataEvent { updater: ctx.updater, timestamp: now },
            },
        )
    }
}

/// Stages a change of the locator of an asset record. Only the creator of the record may
/// change it, and nothing but the locator changes.
pub fn update_metadata(ctx: &UpdateMetadata, new_uri: String, now: i64) -> (r: Result<
    Staged<AssetAccount, UpdateMetadataEvent>,
    CustomError,
>)
    ensures
        outcome_view(r) == update_outcome(*ctx, new_uri, now),
{
    if !ctx.updater.same(&ctx.asset_account.creator) {
        return Err(CustomError::Unauthorized);
    }
    if !fits(&new_uri, MAX_URI_BYTES) {
        return Err(CustomError::FieldTooLong);
    }
    Ok(
        Staged {
            calls: Vec::new(),
            record: AssetAccount {
                creator: ctx.asset_account.creator,
                mint: ctx.asset_account.mint,
                asset_name: ctx.asset_account.asset_name.clone(),
                symbol: ctx.asset_account.symbol.clone(),
                uri: new_uri,
            },
            event: UpdateMetadataEvent { updater: ctx.updater, timestamp: now },
        },
    )
}

} // verus!
