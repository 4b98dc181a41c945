//! A custodial marketplace ledger for collateral-backed quests.
//!
//! A party posts a quest and escrows collateral; a counterparty accepts by
//! escrowing collateral of its own; the lifecycle of the quest decides which
//! movements of funds are legal. This crate holds the decisions: the quest
//! state machine, the escrow and fee accounting, and the aggregate counters.
//! It moves no funds itself. Every transition returns the movements that the
//! caller has to perform on the token ledger, and the caller commits the new
//! state only when all of them went through.

pub mod board;
pub mod escrow;
pub mod fees;
pub mod instructions;
pub mod lifecycle;
pub mod state;
