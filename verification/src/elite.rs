//! Elite Dangerous journal events, and the game status that they tell.

pub mod events;
pub mod status;
