//! The records that the ledger keeps.

pub mod address;
pub mod config;
pub mod counter;
pub mod quest;
pub mod status;

pub use crate::state::address::Address;
pub use crate::state::config::Config;
pub use crate::state::counter::Counter;
pub use crate::state::quest::{Quest, QuestError};
pub use crate::state::status::{Phase, QuestStatus, Ruling, Side};
