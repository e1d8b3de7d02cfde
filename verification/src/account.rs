//! The trading record kept for each owner, and its mathematical model.

use vstd::prelude::*;
use crate::address::Address;
use crate::error::ErrorCode;

verus! {

/// A fee rate of `FEE_DENOMINATOR` takes the whole amount; `300` takes three percent.
pub const FEE_DENOMINATOR: u64 = 10_000;

/// The fee owed on `amount` at the rate `fee_percentage`, rounded down.
pub open spec fn fee_of(amount: nat, fee_percentage: nat) -> nat {
    (amount * fee_percentage) / (FEE_DENOMINATOR as nat)
}

/// The persistent record of one owner.
#[derive(Clone, Copy, Debug, PartialEq, Eq)]
pub struct TradingAccount {
    /// The controlling principal, fixed at creation.
    pub owner: Address,
    /// The principal named as trade executor at creation. No operation consults it.
    pub authority: Address,
    /// Ceiling on the amount of a single trade.
    pub max_trade_amount: u64,
    /// Fee rate in hundredths of a percent.
    pub fee_percentage: u16,
    /// Number of trades executed so far.
    pub total_trades: u64,
    /// Sum of the fees collected so far, in the token's base unit.
    pub total_fees_paid: u64,
    /// Trades are refused while this is `false`.
    pub is_active: bool,
    /// The salt with which the record's address was derived from `owner`.
    pub bump: u8,
}

/// What a trading record stands for: the same fields over unbounded numbers.
pub struct AccountState {
    pub owner: Seq<u8>,
    pub authority: Seq<u8>,
    pub max_trade_amount: nat,
    pub fee_percentage: nat,
    pub total_trades: nat,
    pub total_fees_paid: nat,
    pub is_active: bool,
    pub bump: nat,
}

impl View for TradingAccount {
    type V = AccountState;

    open spec fn view(&self) -> AccountState {
        AccountState {
            owner: self.owner@,
            authority: self.authority@,
            max_trade_amount: self.max_trade_amount as nat,
            fee_percentage: self.fee_percentage as nat,
            total_trades: self.total_trades as nat,
            total_fees_paid: self.total_fees_paid as nat,
            is_active: self.is_active,
            bump: self.bump as nat,
        }
    }
}

impl AccountState {
    /// The record as it stands right after creation: no trades yet, and active.
    pub open spec fn opened(
        owner: Seq<u8>,
        authority: Seq<u8>,
        max_trade_amount: nat,
        fee_percentage: nat,
        bump: nat,
    ) -> AccountState {
        AccountState {
            owner,
            authority,
            max_trade_amount,
            fee_percentage,
            total_trades: 0,
            total_fees_paid: 0,
            is_active: true,
            bump,
        }
    }

    /// Why a trade of `amount` by `caller` is refused, or `None` where it goes ahead.
    /// The caller's identity is examined first, then the activation flag, then the ceiling.
    pub open spec fn refusal(self, caller: Seq<u8>, amount: nat) -> Option<ErrorCode> {
        if caller != self.owner {
            Some(ErrorCode::Unauthorized)
        } else if !self.is_active {
            Some(ErrorCode::AccountNotActive)
        } else if amount > self.max_trade_amount {
            Some(ErrorCode::AmountExceedsLimit)
        } else {
            None
        }
    }

    /// The fee that a trade of `amount` pays on this record.
    pub open spec fn fee(self, amount: nat) -> nat {
        fee_of(amount, self.fee_percentage)
    }

    /// The record after one executed trade of `amount`: one more trade, and its fee added
    /// to the fees paid.
    pub open spec fn after_trade(self, amount: nat) -> AccountState {
        AccountState {
            total_trades: self.total_trades + 1,
            total_fees_paid: self.total_fees_paid + self.fee(amount),
            ..self
        }
    }

    /// Whether a trade of `amount` can be settled in 64-bit quantities: the fee does not
    /// exceed the amount, and both counters still fit after the trade.
    pub open spec fn settles(self, amount: nat) -> bool {
        &&& self.fee(amount) <= amount
        &&& self.after_trade(amount).total_trades <= u64::MAX
        &&& self.after_trade(amount).total_fees_paid <= u64::MAX
    }

    /// The record after a settings update: each value that is present replaces the stored
    /// one, each that is absent leaves it.
    pub open spec fn with_settings(
        self,
        max_trade_amount: Option<u64>,
        is_active: Option<bool>,
    ) -> AccountState {
        AccountState {
            max_trade_amount: match max_trade_amount {
                Some(amount) => amount as nat,
                None => self.max_trade_amount,
            },
            is_active: match is_active {
                Some(active) => active,
                None => self.is_active,
            },
            ..self
        }
    }
}

impl TradingAccount {
    /// Records with the same model are the same record.
    pub proof fn lemma_view_injective(a: TradingAccount, b: TradingAccount)
        ensures
            a@ == b@ <==> a == b,
    {
        Address::lemma_view_injective(a.owner, b.owner);
        Address::lemma_view_injective(a.authority, b.authority);
    }

    /// A fresh record for `owner`.
    pub fn new(
        owner: Address,
        authority: Address,
        max_trade_amount: u64,
        fee_percentage: u16,
        bump: u8,
    ) -> (account: TradingAccount)
        ensures
            account@ == AccountState::opened(
                owner@,
                authority@,
                max_trade_amount as nat,
                fee_percentage as nat,
                bump as nat,
            ),
    {
        TradingAccount {
            owner,
            authority,
            max_trade_amount,
            fee_percentage,
            total_trades: 0,
            total_fees_paid: 0,
            is_active: true,
            bump,
        }
    }
}

/// Computes the fee on `amount` at the rate `fee_percentage`. The product is formed in
/// 128 bits, where it cannot overflow, and the quotient is rounded down. At a rate of at
/// most one hundred percent the fee is within the amount.
pub fn calculate_fee(amount: u64, fee_percentage: u16) -> (fee: u128)
    ensures
        fee == fee_of(amount as nat, fee_percentage as nat),
        fee_percentage <= FEE_DENOMINATOR ==> fee <= amount,
{
    assert(amount as int * fee_percentage as int <= u64::MAX as int * u16::MAX as int)
        by (nonlinear_arith);
    assert(fee_percentage <= 10_000 ==> amount as int * fee_percentage as int <= amount as int
        * 10_000) by (nonlinear_arith);
    let product: u128 = (amount as u128) * (fee_percentage as u128);
    product / (FEE_DENOMINATOR as u128)
}

} // verus!
