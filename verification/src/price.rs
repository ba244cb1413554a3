//! The price record: the last price written and the time it was written at. Whoever
//! writes last wins; the record is no part of what the ledger decides by.

use vstd::prelude::*;
use crate::events::UpdatePriceEvent;
use crate::identity::Identity;
use crate::registry::{Staged, StagedView};

verus! {

/// The last price written and the time of that update.
#[derive(Clone, Copy, Debug, PartialEq, Eq)]
pub struct PriceFeedAccount {
    pub price: u64,
    pub last_update: i64,
}

/// What a price update needs: who writes, and the record as it stands.
#[derive(Clone, Copy, Debug, PartialEq, Eq)]
pub struct UpdatePrice {
    pub oracle_updater: Identity,
    pub price_feed: PriceFeedAccount,
}

/// Stages a price update: no call, the record with the new price and `now` as the time of
/// the update, and the event of the update. Any updater is accepted.
pub fn update_price(ctx: &UpdatePrice, new_price: u64, now: i64) -> (staged: Staged<
    PriceFeedAccount,
    UpdatePriceEvent,
>)
    ensures
        staged@ == (StagedView {
            calls: Seq::empty(),
            record: PriceFeedAccount { price: new_price, last_update: now },
            event: UpdatePriceEvent { updater: ctx.oracle_updater, price: new_price, timestamp: now },
        }),
{
    Staged {
        calls: Vec::new(),
        record: PriceFeedAccount { price: new_price, last_update: now },
        event: UpdatePriceEvent { updater: ctx.oracle_updater, price: new_price, timestamp: now },
    }
}

} // verus!
