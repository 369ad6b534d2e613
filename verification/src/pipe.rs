//! The local pipe to Discord's desktop client.

pub mod errors;
