//! A per-user trading account for a token ledger: a record is created for its owner,
//! trades are executed against it with a percentage fee that is forwarded to a
//! fee-collection account, its settings are updated, and it is closed.
//!
//! The operations work on plain values. Whoever calls them reads the record from the
//! ledger, performs the fee transfer that a trade asks for, reads the clock, publishes the
//! notification, and writes the record back.

pub mod account;
pub mod address;
pub mod context;
pub mod error;
pub mod event;
pub mod instructions;
pub mod lifecycle;
pub mod theorems;

pub use crate::account::{calculate_fee, AccountState, TradingAccount, FEE_DENOMINATOR};
pub use crate::address::{
    create_trading_address, find_trading_address, Address, ADDRESS_BYTES, TRADING_SEED,
};
pub use crate::context::{
    CloseTradingAccount, ExecuteTrade, InitializeTradingAccount, UpdateTradingSettings,
};
pub use crate::error::{ErrorCode, TradingError};
pub use crate::event::{FeeTransfer, TradeExecuted, TradeReceipt};
pub use crate::instructions::{
    checked_execute_trade, close_trading_account, execute_trade, initialize_trading_account,
    trade_would_fault, update_trading_settings,
};
