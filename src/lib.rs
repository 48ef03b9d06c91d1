//! Reward accrual for staked NFT positions.
//!
//! Time is cut into cycles of a fixed number of seconds, and cycles into
//! periods. Each position keeps a history of stake-state snapshots and a
//! claim cursor; the calculator walks the history from the cursor over whole
//! elapsed periods and pays a flat reward per staked cycle. Exits go through
//! an unbonding state that freezes accrual at the request.

pub mod admin;
pub mod error;
pub mod history;
pub mod msg;
pub mod position;
pub mod query;
pub mod rewards;
pub mod state;
pub mod text;
pub mod time;

pub use crate::error::ContractError;
