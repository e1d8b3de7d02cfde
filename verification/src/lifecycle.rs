//! The life of a trading record as a state machine. An owner's record lives in one slot of
//! the ledger, at the address derived from the owner: the slot is empty until the record is
//! created, holds it while it is active or deactivated, and is empty again once it is closed.

use vstd::prelude::*;
use crate::account::{AccountState, TradingAccount};
use crate::error::{ErrorCode, TradingError};

verus! {

/// What a slot holds, as a model: nothing, or a record.
pub open spec fn slot_state(slot: Option<TradingAccount>) -> Option<AccountState> {
    match slot {
        Some(account) => Some(account@),
        None => None,
    }
}

/// Creation is refused exactly when the slot is taken.
pub open spec fn initialize_refusal(slot: Option<AccountState>) -> Option<TradingError> {
    if slot is Some {
        Some(TradingError::AccountAlreadyInitialized)
    } else {
        None
    }
}

/// The slot after `owner` has asked for a record to be created in it.
pub open spec fn initialized(
    slot: Option<AccountState>,
    owner: Seq<u8>,
    authority: Seq<u8>,
    max_trade_amount: nat,
    fee_percentage: nat,
    bump: nat,
) -> Option<AccountState> {
    if slot is Some {
        slot
    } else {
        Some(AccountState::opened(owner, authority, max_trade_amount, fee_percentage, bump))
    }
}

/// Why `caller` may not touch the record in `slot`: there is none, or it belongs to another.
pub open spec fn owner_refusal(slot: Option<AccountState>, caller: Seq<u8>) -> Option<
    TradingError,
> {
    match slot {
        None => Some(TradingError::AccountNotInitialized),
        Some(state) => if caller != state.owner {
            Some(TradingError::Program(ErrorCode::Unauthorized))
        } else {
            None
        },
    }
}

/// Why a trade of `amount` by `caller` is refused, or `None` where it goes ahead. A missing
/// record comes first, then the record's own rules.
pub open spec fn trade_refusal(slot: Option<AccountState>, caller: Seq<u8>, amount: nat) -> Option<
    TradingError,
> {
    match slot {
        None => Some(TradingError::AccountNotInitialized),
        Some(state) => match state.refusal(caller, amount) {
            Some(code) => Some(TradingError::Program(code)),
            None => None,
        },
    }
}

/// Whether a trade of `amount` by `caller` is admitted and yet cannot be settled in 64-bit
/// quantities.
pub open spec fn trade_faults(slot: Option<AccountState>, caller: Seq<u8>, amount: nat) -> bool {
    &&& trade_refusal(slot, caller, amount) is None
    &&& !slot.unwrap().settles(amount)
}

/// The slot after `caller` has asked for a trade of `amount`: the record with one more
/// trade and its fee where the trade is admitted, the slot as it was where it is refused.
pub open spec fn traded(slot: Option<AccountState>, caller: Seq<u8>, amount: nat) -> Option<
    AccountState,
> {
    if trade_refusal(slot, caller, amount) is None {
        Some(slot.unwrap().after_trade(amount))
    } else {
        slot
    }
}

/// The slot after `caller` has asked for a settings update.
pub open spec fn updated(
    slot: Option<AccountState>,
    caller: Seq<u8>,
    max_trade_amount: Option<u64>,
    is_active: Option<bool>,
) -> Option<AccountState> {
    if owner_refusal(slot, caller) is None {
        Some(slot.unwrap().with_settings(max_trade_amount, is_active))
    } else {
        slot
    }
}

/// The slot after `caller` has asked for the record to be closed.
pub open spec fn closed(slot: Option<AccountState>, caller: Seq<u8>) -> Option<AccountState> {
    if owner_refusal(slot, caller) is None {
        None
    } else {
        slot
    }
}

/// Slots with the same model hold the same record.
pub proof fn lemma_slot_state_injective(a: Option<TradingAccount>, b: Option<TradingAccount>)
    ensures
        slot_state(a) == slot_state(b) <==> a == b,
{
    if a is Some && b is Some {
        TradingAccount::lemma_view_injective(a.unwrap(), b.unwrap());
    }
}

} // verus!
