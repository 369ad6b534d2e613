//! The RPC of Discord's desktop client, spoken over its local pipe.

pub mod client;
pub mod errors;
pub mod op_code;
pub mod payload;
pub mod transport;
pub mod utils;
