//! What the library promises of its operations, each stated of the calls
//! themselves: of what goes in, what comes out, and how calls relate.
pub mod caches;
pub mod daemon;
pub mod fleet;
pub mod guest_socket;
pub mod host;
pub mod http_api;
pub mod reclaim;
pub mod snapshots;
pub mod words;
