//! Discord rich presence: the activity shown, and the RPC that sets it.

pub mod activity;
pub mod rpc;
