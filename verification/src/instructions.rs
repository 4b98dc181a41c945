//! The transitions of the quest lifecycle, one module each.
//!
//! Every transition validates before it changes anything. Where it refuses,
//! the records it was given are left as they were.

pub mod accept_quest;
pub mod close_quest;
pub mod complete_quest;
pub mod create_quest;
pub mod initialize;
pub mod publish_quest;
pub mod unpublish_quest;
pub mod update_quest;
pub mod update_quest_hash;

pub use crate::instructions::accept_quest::{accept_quest_handler, AcceptQuest, AcceptQuestParams};
pub use crate::instructions::close_quest::{close_quest_handler, CloseQuest};
pub use crate::instructions::complete_quest::{complete_quest_handler, CompleteQuest};
pub use crate::instructions::create_quest::{
    create_quest_handler, CreateQuest, CreateQuestBumps, CreateQuestParams,
};
pub use crate::instructions::initialize::{
    initialize_handler, Initialize, InitializeBumps, InitializeParams, ProgramData,
};
pub use crate::instructions::publish_quest::{publish_quest_handler, PublishQuest};
pub use crate::instructions::unpublish_quest::{unpublish_quest_handler, UnpublishQuest};
pub use crate::instructions::update_quest::{update_quest_handler, UpdateQuest, UpdateQuestParams};
pub use crate::instructions::update_quest_hash::{
    update_quest_hash_handler, UpdateQuestHash, UpdateQuestHashParams,
};
