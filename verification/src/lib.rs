//! Server-side session lifecycle engine: records, the in-memory store, the
//! per-request handle, identifier issuance and the expiration sweep.

pub mod assoc;
mod clock;
pub mod config;
pub mod cookies;
pub mod data_map;
pub mod errors;
pub mod laws;
pub mod memory_store;
pub mod session;
pub mod session_data;
pub mod session_id;
pub mod session_store;
pub mod session_timers;
