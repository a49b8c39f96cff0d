//! Bin-transfer engine for warehouse lot balances.
//!
//! Quantities are fixed-point integers counted in millionths of a stock unit
//! (see [`quantity`]). The store itself lives outside this crate: the
//! transfer orchestrator is a state machine that decides which store command
//! comes next, and the balance planner decides which rows are written.
pub mod quantity;
pub mod text;
pub mod error;
pub mod balance;
pub mod validation;
pub mod table;
pub mod sequence;
pub mod locking;
pub mod actor;
pub mod ledger;
pub mod orchestrator;
pub mod response;
pub mod alert;
pub mod clock;
pub mod config;
pub mod status;
pub mod pagination;
