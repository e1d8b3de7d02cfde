//! The four operations on a trading record.

use vstd::prelude::*;
use crate::account::{calculate_fee, TradingAccount};
use crate::address::Address;
use crate::context::{
    CloseTradingAccount, ExecuteTrade, InitializeTradingAccount, UpdateTradingSettings,
};
use crate::error::{ErrorCode, TradingError};
use crate::event::{FeeTransfer, TradeReceipt};
use crate::lifecycle::{
    closed, initialize_refusal, initialized, owner_refusal, slot_state, trade_faults,
    trade_refusal, traded, updated,
};

verus! {

/// Looks up the record in `slot` on behalf of `user`.
fn owned_record(slot: Option<TradingAccount>, user: &Address) -> (result: Result<
    TradingAccount,
    TradingError,
>)
    ensures
        match result {
            Ok(account) => owner_refusal(slot_state(slot), user@) is None && slot == Some(
                account,
            ),
            Err(error) => owner_refusal(slot_state(slot), user@) == Some(error),
        },
{
    match slot {
        None => Err(TradingError::AccountNotInitialized),
        Some(account) => {
            if *user != account.owner {
                Err(TradingError::Program(ErrorCode::Unauthorized))
            } else {
                Ok(account)
            }
        },
    }
}

/// Decides whether a trade of `amount` goes ahead, and on which record.
fn admitted_record(ctx: &ExecuteTrade, amount: u64) -> (result: Result<
    TradingAccount,
    TradingError,
>)
    ensures
        match result {
            Ok(account) => {
                &&& trade_refusal(slot_state(ctx.trading_account), ctx.user@, amount as nat) is None
                &&& ctx.trading_account == Some(account)
            },
            Err(error) => trade_refusal(slot_state(ctx.trading_account), ctx.user@, amount as nat)
                == Some(error),
        },
{
    let account = owned_record(ctx.trading_account, &ctx.user)?;
    if !account.is_active {
        Err(TradingError::Program(ErrorCode::AccountNotActive))
    } else if amount > account.max_trade_amount {
        Err(TradingError::Program(ErrorCode::AmountExceedsLimit))
    } else {
        Ok(account)
    }
}

/// Creates the caller's trading record: no trades yet, active, with the given ceiling and
/// fee rate, neither of which is validated. Fails, and leaves everything as it was, when a
/// record already exists in the slot.
pub fn initialize_trading_account(
    ctx: &mut InitializeTradingAccount,
    max_trade_amount: u64,
    fee_percentage: u16,
) -> (result: Result<(), TradingError>)
    ensures
        match result {
            Ok(_) => initialize_refusal(slot_state(old(ctx).trading_account)) is None,
            Err(error) => initialize_refusal(slot_state(old(ctx).trading_account)) == Some(error),
        },
        slot_state(final(ctx).trading_account) == initialized(
            slot_state(old(ctx).trading_account),
            old(ctx).user@,
            old(ctx).authority@,
            max_trade_amount as nat,
            fee_percentage as nat,
            old(ctx).bump as nat,
        ),
        final(ctx).user == old(ctx).user,
        final(ctx).authority == old(ctx).authority,
        final(ctx).bump == old(ctx).bump,
        result is Err ==> *final(ctx) == *old(ctx),
{
    if ctx.trading_account.is_some() {
        return Err(TradingError::AccountAlreadyInitialized);
    }
    ctx.trading_account = Some(
        TradingAccount::new(ctx.user, ctx.authority, max_trade_amount, fee_percentage, ctx.bump),
    );
    Ok(())
}

/// What a call for a trade of `amount` does where it does not fault. `before` and `after`
/// are the accounts before and after the call, `result` is what the call returns.
///
/// The call fails exactly where the trade is refused, with the refusal as its error, and
/// then changes nothing. An admitted trade pays `floor(amount * fee_percentage / 10000)` as
/// fee, counts as one more trade and adds its fee to the fees paid. Its receipt carries the
/// fee, the rest of the amount, and the transfer of the fee that the token service is to
/// perform: from the caller's token account to the fee account, on the caller's signature.
pub open spec fn trade_outcome(
    before: ExecuteTrade,
    amount: u64,
    result: Result<TradeReceipt, TradingError>,
    after: ExecuteTrade,
) -> bool {
    &&& match result {
        Ok(receipt) => {
            &&& trade_refusal(slot_state(before.trading_account), before.user@, amount as nat)
                is None
            &&& receipt.user == before.user
            &&& receipt.amount == amount
            &&& receipt.fee_amount == before.trading_account.unwrap()@.fee(amount as nat)
            &&& receipt.net_amount == amount - receipt.fee_amount
            &&& receipt.fee_transfer == before.fee_transfer(receipt.fee_amount)
        },
        Err(error) => {
            &&& trade_refusal(slot_state(before.trading_account), before.user@, amount as nat)
                == Some(error)
            &&& after == before
        },
    }
    &&& slot_state(after.trading_account) == traded(
        slot_state(before.trading_account),
        before.user@,
        amount as nat,
    )
    &&& after.user == before.user
    &&& after.user_token_account == before.user_token_account
    &&& after.fee_token_account == before.fee_token_account
}

/// Tells whether a trade of `amount` would fault: the trade is admitted, and its fee
/// exceeds the amount or one of the two counters would leave 64 bits.
pub fn trade_would_fault(ctx: &ExecuteTrade, amount: u64) -> (faults: bool)
    ensures
        faults == trade_faults(slot_state(ctx.trading_account), ctx.user@, amount as nat),
{
    match admitted_record(ctx, amount) {
        Err(_) => false,
        Ok(account) => {
            let fee = calculate_fee(amount, account.fee_percentage);
            fee > amount as u128 || account.total_trades == u64::MAX || fee > (u64::MAX
                - account.total_fees_paid) as u128
        },
    }
}

/// Executes a trade of `amount`. The caller must own the record, the record must be active
/// and `amount` must not exceed its ceiling; otherwise the call fails and changes nothing.
/// The record left in `ctx` is the record as it stands once the fee has been moved: it is
/// to be persisted together with the transfer in the receipt, or not at all.
///
/// An admitted trade whose fee exceeds the amount, or which would carry a counter past
/// 64 bits, is a fault and must not be asked for: `checked_execute_trade` asks first.
pub fn execute_trade(ctx: &mut ExecuteTrade, amount: u64) -> (result: Result<
    TradeReceipt,
    TradingError,
>)
    requires
        !trade_faults(slot_state(old(ctx).trading_account), old(ctx).user@, amount as nat),
    ensures
        trade_outcome(*old(ctx), amount, result, *final(ctx)),
{
    let account = admitted_record(ctx, amount)?;
    let fee_amount = calculate_fee(amount, account.fee_percentage) as u64;
    let net_amount = amount - fee_amount;
    ctx.trading_account = Some(
        TradingAccount {
            total_trades: account.total_trades + 1,
            total_fees_paid: account.total_fees_paid + fee_amount,
            ..account
        },
    );
    Ok(
        TradeReceipt {
            user: ctx.user,
            amount,
            fee_amount,
            net_amount,
            fee_transfer: FeeTransfer {
                from: ctx.user_token_account,
                to: ctx.fee_token_account,
                authority: ctx.user,
                amount: fee_amount,
            },
        },
    )
}

/// Executes a trade of `amount` with checked arithmetic. Where the trade would fault the
/// whole call is abandoned: it returns `None` and nothing has changed. Everywhere else it
/// does what `execute_trade` does.
pub fn checked_execute_trade(ctx: &mut ExecuteTrade, amount: u64) -> (result: Option<
    Result<TradeReceipt, TradingError>,
>)
    ensures
        match result {
            None => {
                &&& trade_faults(
                    slot_state(old(ctx).trading_account),
                    old(ctx).user@,
                    amount as nat,
                )
                &&& *final(ctx) == *old(ctx)
            },
            Some(outcome) => {
                &&& !trade_faults(
                    slot_state(old(ctx).trading_account),
                    old(ctx).user@,
                    amount as nat,
                )
                &&& trade_outcome(*old(ctx), amount, outcome, *final(ctx))
            },
        },
{
    if trade_would_fault(ctx, amount) {
        None
    } else {
        Some(execute_trade(ctx, amount))
    }
}

/// Overwrites the ceiling and the activation flag with the values that are present and
/// leaves the others untouched; neither value is validated. Only the owner may do so.
pub fn update_trading_settings(
    ctx: &mut UpdateTradingSettings,
    max_trade_amount: Option<u64>,
    is_active: Option<bool>,
) -> (result: Result<(), TradingError>)
    ensures
        match result {
            Ok(_) => owner_refusal(slot_state(old(ctx).trading_account), old(ctx).user@) is None,
            Err(error) => owner_refusal(slot_state(old(ctx).trading_account), old(ctx).user@)
                == Some(error),
        },
        slot_state(final(ctx).trading_account) == updated(
            slot_state(old(ctx).trading_account),
            old(ctx).user@,
            max_trade_amount,
            is_active,
        ),
        final(ctx).user == old(ctx).user,
        result is Err ==> *final(ctx) == *old(ctx),
{
    let mut account = owned_record(ctx.trading_account, &ctx.user)?;
    if let Some(amount) = max_trade_amount {
        account.max_trade_amount = amount;
    }
    if let Some(active) = is_active {
        account.is_active = active;
    }
    ctx.trading_account = Some(account);
    Ok(())
}

/// Destroys the caller's record: the slot is empty afterwards. Only the owner may do so.
pub fn close_trading_account(ctx: &mut CloseTradingAccount) -> (result: Result<(), TradingError>)
    ensures
        match result {
            Ok(_) => owner_refusal(slot_state(old(ctx).trading_account), old(ctx).user@) is None,
            Err(error) => owner_refusal(slot_state(old(ctx).trading_account), old(ctx).user@)
                == Some(error),
        },
        slot_state(final(ctx).trading_account) == closed(
            slot_state(old(ctx).trading_account),
            old(ctx).user@,
        ),
        final(ctx).user == old(ctx).user,
        result is Err ==> *final(ctx) == *old(ctx),
{
    let _ = owned_record(ctx.trading_account, &ctx.user)?;
    ctx.trading_account = None;
    Ok(())
}

} // verus!
