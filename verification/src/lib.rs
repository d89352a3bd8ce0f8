//! Control plane of the Clone virtual machine monitor.
//!
//! The crate holds the decisions of the daemon and of the fleet controller as
//! ordinary values and functions with proved contracts. Reading files, talking
//! to sockets and running guests is left to the program around it. What the
//! functions promise together is stated and proved in `laws`.
pub mod cgroup;
pub mod chain;
pub mod clone_client;
pub mod config;
pub mod controller;
pub mod controller_metrics;
pub mod failure;
pub mod http;
pub mod laws;
pub mod netns;
pub mod pool;
pub mod prom;
pub mod prometheus_metrics;
pub mod protocol;
pub mod reconciler;
pub mod server;
pub mod snapshot;
pub mod strmap;
pub mod sync_server;
pub mod tenant;
pub mod text;
pub mod timestamp;
