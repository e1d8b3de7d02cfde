//! What holds of the operations taken together.

use vstd::prelude::*;
use crate::account::{fee_of, AccountState, FEE_DENOMINATOR};
use crate::error::{ErrorCode, TradingError};
use crate::lifecycle::{
    closed, initialize_refusal, initialized, owner_refusal, trade_faults, trade_refusal, traded,
    updated,
};

verus! {

/// The fee is the product of amount and rate divided by ten thousand, rounded down: it is
/// the one number whose ten-thousandfold lies within ten thousand below the product.
pub proof fn lemma_fee_is_floor(amount: nat, fee_percentage: nat)
    ensures
        fee_of(amount, fee_percentage) * FEE_DENOMINATOR <= amount * fee_percentage,
        amount * fee_percentage < (fee_of(amount, fee_percentage) + 1) * FEE_DENOMINATOR,
{
    let product = amount * fee_percentage;
    assert(product == 10_000 * (product / 10_000) + product % 10_000) by (nonlinear_arith);
    assert(0 <= product % 10_000 < 10_000) by (nonlinear_arith);
}

/// At a rate of at most one hundred percent the fee never exceeds the amount, so that what
/// is left after the fee is not negative.
pub proof fn lemma_fee_within_amount(amount: nat, fee_percentage: nat)
    requires
        fee_percentage <= FEE_DENOMINATOR,
    ensures
        fee_of(amount, fee_percentage) <= amount,
        amount - fee_of(amount, fee_percentage) >= 0,
{
    lemma_fee_is_floor(amount, fee_percentage);
    assert(amount * fee_percentage <= amount * 10_000) by (nonlinear_arith)
        requires
            fee_percentage <= 10_000,
    ;
}

/// On a record whose rate is at most one hundred percent, a trade within the ceiling pays
/// the rounded-down fee and leaves a rest that is not negative. While the record is active
/// the owner's such trade is admitted, and it can fault on a counter only.
pub proof fn lemma_trade_within_limits(state: AccountState, amount: nat)
    requires
        state.fee_percentage <= FEE_DENOMINATOR,
        amount <= state.max_trade_amount,
    ensures
        state.fee(amount) == (amount * state.fee_percentage) / (FEE_DENOMINATOR as nat),
        state.fee(amount) <= amount,
        amount - state.fee(amount) >= 0,
        state.is_active ==> trade_refusal(Some(state), state.owner, amount) is None,
        trade_faults(Some(state), state.owner, amount) <==> state.is_active && {
            ||| state.total_trades + 1 > u64::MAX
            ||| state.total_fees_paid + state.fee(amount) > u64::MAX
        },
{
    lemma_fee_within_amount(amount, state.fee_percentage);
}

/// Creating a record twice fails: whatever the slot held before the first request, after it
/// the slot is taken, so that every further request is refused and changes nothing.
pub proof fn lemma_second_initialize_fails(
    slot: Option<AccountState>,
    owner: Seq<u8>,
    authority: Seq<u8>,
    max_trade_amount: nat,
    fee_percentage: nat,
    bump: nat,
    again_authority: Seq<u8>,
    again_max_trade_amount: nat,
    again_fee_percentage: nat,
)
    ensures
        initialize_refusal(
            initialized(slot, owner, authority, max_trade_amount, fee_percentage, bump),
        ) == Some(TradingError::AccountAlreadyInitialized),
        initialized(
            initialized(slot, owner, authority, max_trade_amount, fee_percentage, bump),
            owner,
            again_authority,
            again_max_trade_amount,
            again_fee_percentage,
            bump,
        ) == initialized(slot, owner, authority, max_trade_amount, fee_percentage, bump),
{
}

/// A trade on a deactivated record is never admitted, and the owner's is refused as not
/// active; the slot stays as it was.
pub proof fn lemma_inactive_account_refuses(state: AccountState, caller: Seq<u8>, amount: nat)
    requires
        !state.is_active,
    ensures
        trade_refusal(Some(state), caller, amount) is Some,
        caller == state.owner ==> trade_refusal(Some(state), caller, amount) == Some(
            TradingError::Program(ErrorCode::AccountNotActive),
        ),
        traded(Some(state), caller, amount) == Some(state),
        !trade_faults(Some(state), caller, amount),
{
}

/// A trade above the ceiling is never admitted, and the owner's, on an active record, is
/// refused as exceeding the limit; the slot stays as it was.
pub proof fn lemma_amount_over_limit_refuses(state: AccountState, caller: Seq<u8>, amount: nat)
    requires
        amount > state.max_trade_amount,
    ensures
        trade_refusal(Some(state), caller, amount) is Some,
        caller == state.owner && state.is_active ==> trade_refusal(Some(state), caller, amount)
            == Some(TradingError::Program(ErrorCode::AmountExceedsLimit)),
        traded(Some(state), caller, amount) == Some(state),
        !trade_faults(Some(state), caller, amount),
{
}

/// A caller who is not the record's owner is refused as unauthorized, whatever the state of
/// the record and whatever is asked for: a trade, a settings update or the closing. The
/// slot stays as it was.
pub proof fn lemma_stranger_is_unauthorized(
    state: AccountState,
    caller: Seq<u8>,
    amount: nat,
    max_trade_amount: Option<u64>,
    is_active: Option<bool>,
)
    requires
        caller != state.owner,
    ensures
        trade_refusal(Some(state), caller, amount) == Some(
            TradingError::Program(ErrorCode::Unauthorized),
        ),
        owner_refusal(Some(state), caller) == Some(TradingError::Program(ErrorCode::Unauthorized)),
        traded(Some(state), caller, amount) == Some(state),
        updated(Some(state), caller, max_trade_amount, is_active) == Some(state),
        closed(Some(state), caller) == Some(state),
        !trade_faults(Some(state), caller, amount),
{
}

/// The slot after `caller` has asked for a trade of each of `amounts` in turn.
pub open spec fn traded_all(slot: Option<AccountState>, caller: Seq<u8>, amounts: Seq<nat>) -> Option<
    AccountState,
>
    decreases amounts.len(),
{
    if amounts.len() == 0 {
        slot
    } else {
        traded(traded_all(slot, caller, amounts.drop_last()), caller, amounts.last())
    }
}

/// Whether each of the trades of `amounts` is admitted when its turn comes.
pub open spec fn all_admitted(slot: Option<AccountState>, caller: Seq<u8>, amounts: Seq<nat>) -> bool {
    forall|i: int|
        0 <= i < amounts.len() ==> trade_refusal(
            #[trigger] traded_all(slot, caller, amounts.take(i)),
            caller,
            amounts[i],
        ) is None
}

/// The sum of the fees that trades of `amounts` pay at the rate `fee_percentage`.
pub open spec fn fees_total(fee_percentage: nat, amounts: Seq<nat>) -> nat
    decreases amounts.len(),
{
    if amounts.len() == 0 {
        0
    } else {
        fees_total(fee_percentage, amounts.drop_last()) + fee_of(amounts.last(), fee_percentage)
    }
}

/// While a record exists, trades and settings updates leave its owner, its authority, its
/// salt and its fee rate alone, and its two counters never go down. Trades leave the
/// ceiling and the activation flag alone as well; settings updates leave the counters alone.
pub proof fn lemma_record_invariants(
    state: AccountState,
    caller: Seq<u8>,
    amount: nat,
    max_trade_amount: Option<u64>,
    is_active: Option<bool>,
)
    ensures
        traded(Some(state), caller, amount) matches Some(after) && {
            &&& after.owner == state.owner
            &&& after.authority == state.authority
            &&& after.bump == state.bump
            &&& after.fee_percentage == state.fee_percentage
            &&& after.max_trade_amount == state.max_trade_amount
            &&& after.is_active == state.is_active
            &&& after.total_trades >= state.total_trades
            &&& after.total_fees_paid >= state.total_fees_paid
        },
        updated(Some(state), caller, max_trade_amount, is_active) matches Some(after) && {
            &&& after.owner == state.owner
            &&& after.authority == state.authority
            &&& after.bump == state.bump
            &&& after.fee_percentage == state.fee_percentage
            &&& after.total_trades == state.total_trades
            &&& after.total_fees_paid == state.total_fees_paid
        },
        updated(Some(state), caller, None, None) == Some(state),
{
}

/// Trades accumulate: after a run of trades that were all admitted, the record counts one
/// trade more for each of them and has the sum of their fees added to the fees paid. On a
/// record that started from zero the counters are the number of trades and the sum of
/// their fees.
pub proof fn lemma_trades_accumulate(state: AccountState, caller: Seq<u8>, amounts: Seq<nat>)
    requires
        all_admitted(Some(state), caller, amounts),
    ensures
        traded_all(Some(state), caller, amounts) matches Some(after) && {
            &&& after.total_trades == state.total_trades + amounts.len()
            &&& after.total_fees_paid == state.total_fees_paid + fees_total(
                state.fee_percentage,
                amounts,
            )
            &&& after == AccountState {
                total_trades: after.total_trades,
                total_fees_paid: after.total_fees_paid,
                ..state
            }
            &&& state.total_trades == 0 && state.total_fees_paid == 0 ==> {
                &&& after.total_trades == amounts.len()
                &&& after.total_fees_paid == fees_total(state.fee_percentage, amounts)
            }
        },
    decreases amounts.len(),
{
    if amounts.len() > 0 {
        let earlier = amounts.drop_last();
        assert forall|i: int| 0 <= i < earlier.len() implies trade_refusal(
            #[trigger] traded_all(Some(state), caller, earlier.take(i)),
            caller,
            earlier[i],
        ) is None by {
            assert(earlier.take(i) == amounts.take(i));
        }
        lemma_trades_accumulate(state, caller, earlier);
        assert(amounts.take(amounts.len() - 1) == earlier);
    }
}

/// Deactivating a record stops its trades: after the owner has switched it off, no trade
/// is admitted, and the owner's own is refused as not active. Once the owner has switched
/// it on again, the owner's trade within the ceiling is admitted.
pub proof fn lemma_deactivate_then_reactivate(state: AccountState, caller: Seq<u8>, amount: nat)
    ensures
        trade_refusal(updated(Some(state), state.owner, None, Some(false)), caller, amount) is Some,
        trade_refusal(updated(Some(state), state.owner, None, Some(false)), state.owner, amount)
            == Some(TradingError::Program(ErrorCode::AccountNotActive)),
        amount <= state.max_trade_amount ==> trade_refusal(
            updated(
                updated(Some(state), state.owner, None, Some(false)),
                state.owner,
                None,
                Some(true),
            ),
            state.owner,
            amount,
        ) is None,
{
}

/// Closing removes the record: once the owner has closed it the slot is empty, and every
/// trade, settings update or closing asked of that slot fails for want of a record,
/// whoever asks. The slot is then as it was before any record was created in it.
pub proof fn lemma_closed_account_refuses(
    state: AccountState,
    caller: Seq<u8>,
    amount: nat,
    max_trade_amount: Option<u64>,
    is_active: Option<bool>,
)
    ensures
        closed(Some(state), state.owner) is None,
        trade_refusal(closed(Some(state), state.owner), caller, amount) == Some(
            TradingError::AccountNotInitialized,
        ),
        owner_refusal(closed(Some(state), state.owner), caller) == Some(
            TradingError::AccountNotInitialized,
        ),
        traded(closed(Some(state), state.owner), caller, amount) is None,
        updated(closed(Some(state), state.owner), caller, max_trade_amount, is_active) is None,
        initialize_refusal(closed(Some(state), state.owner)) is None,
{
}

} // verus!
