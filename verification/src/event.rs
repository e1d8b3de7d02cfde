//! What a trade leaves behind for the outside world: the transfer it asks for and the
//! notification it publishes.

use vstd::prelude::*;
use crate::address::Address;

verus! {

/// A request to the token service: move `amount` from `from` to `to`, on `authority`'s signature.
#[derive(Clone, Copy, Debug, PartialEq, Eq)]
pub struct FeeTransfer {
    pub from: Address,
    pub to: Address,
    pub authority: Address,
    pub amount: u64,
}

/// The result of an executed trade.
#[derive(Clone, Copy, Debug, PartialEq, Eq)]
pub struct TradeReceipt {
    /// The caller who traded.
    pub user: Address,
    /// The traded amount.
    pub amount: u64,
    /// The part of `amount` taken as fee.
    pub fee_amount: u64,
    /// What is left of `amount` after the fee.
    pub net_amount: u64,
    /// The transfer that carries the fee to the fee-collection account.
    pub fee_transfer: FeeTransfer,
}

/// The notification published for each executed trade.
#[derive(Clone, Copy, Debug, PartialEq, Eq)]
pub struct TradeExecuted {
    pub user: Address,
    pub amount: u64,
    pub fee_amount: u64,
    pub net_amount: u64,
    /// Wall-clock seconds at which the trade was executed.
    pub timestamp: i64,
}

impl TradeReceipt {
    /// The notification for this trade, stamped with the time read from the clock.
    pub fn executed_at(&self, timestamp: i64) -> (event: TradeExecuted)
        ensures
            event == (TradeExecuted {
                user: self.user,
                amount: self.amount,
                fee_amount: self.fee_amount,
                net_amount: self.net_amount,
                timestamp,
            }),
    {
        TradeExecuted {
            user: self.user,
            amount: self.amount,
            fee_amount: self.fee_amount,
            net_amount: self.net_amount,
            timestamp,
        }
    }
}

} // verus!
