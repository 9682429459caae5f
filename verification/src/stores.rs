//! Flux-style stores, each updated through its own action type.

pub mod app_state_store;
pub mod known_hosts_store;
