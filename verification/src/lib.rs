//! Rich presence for Elite Dangerous: the game's journal is turned into a
//! game session, and the session into a Discord activity.

pub mod digits;
pub mod discord;
pub mod elite;
pub mod journal;
pub mod journal_event;
pub mod loadout;
pub mod location;
pub mod message;
pub mod pipe;
pub mod presence;
pub mod rpc;
pub mod session;
pub mod state;
pub mod state_manager;
pub mod utils;
pub mod watchdog;
