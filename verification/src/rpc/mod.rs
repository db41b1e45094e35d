//! Request and result types of the runtime's RPC surface, grouped by namespace,
//! and ([`params`]) the parameters each namespace method sends.
pub mod skills;
pub mod canvas;
pub mod client_mcp;
pub mod history;
pub mod mcp;
pub mod metadata;
pub mod permissions;
pub mod sessions;
pub mod tasks;
pub mod params;
