//! The accounts that each operation is handed. The record's place on the ledger is a slot:
//! `Some` while a record exists at the address derived from its owner, `None` before the
//! record is created and after it is closed.

use vstd::prelude::*;
use crate::account::TradingAccount;
use crate::address::Address;
use crate::event::FeeTransfer;

verus! {

/// Accounts for creating a trading record.
#[derive(Clone, Copy, Debug, PartialEq, Eq)]
pub struct InitializeTradingAccount {
    /// The slot at the address derived from `user`, in which the record is to be created.
    pub trading_account: Option<TradingAccount>,
    /// The signer, who becomes the record's owner.
    pub user: Address,
    /// The principal to be named as trade executor.
    pub authority: Address,
    /// The salt with which the slot's address was derived.
    pub bump: u8,
}

/// Accounts for executing a trade.
#[derive(Clone, Copy, Debug, PartialEq, Eq)]
pub struct ExecuteTrade {
    /// The slot of the record that the call is about.
    pub trading_account: Option<TradingAccount>,
    /// The signer.
    pub user: Address,
    /// The caller's token-holding account, from which the fee is taken.
    pub user_token_account: Address,
    /// The token-holding account that collects fees.
    pub fee_token_account: Address,
}

/// Accounts for changing a record's settings.
#[derive(Clone, Copy, Debug, PartialEq, Eq)]
pub struct UpdateTradingSettings {
    /// The slot of the record that the call is about.
    pub trading_account: Option<TradingAccount>,
    /// The signer.
    pub user: Address,
}

/// Accounts for closing a record.
#[derive(Clone, Copy, Debug, PartialEq, Eq)]
pub struct CloseTradingAccount {
    /// The slot of the record that the call is about.
    pub trading_account: Option<TradingAccount>,
    /// The signer, to whom the storage deposit returns.
    pub user: Address,
}

impl ExecuteTrade {
    /// The transfer that moves `fee_amount` from the caller's token account to the
    /// fee-collection account, on the caller's own signature and not the record's.
    pub open spec fn fee_transfer(&self, fee_amount: u64) -> FeeTransfer {
        FeeTransfer {
            from: self.user_token_account,
            to: self.fee_token_account,
            authority: self.user,
            amount: fee_amount,
        }
    }
}

} // verus!
