//! Configuration of the controller.
use vstd::prelude::*;

verus! {

/// The path type of std.
#[verifier::external_type_specification]
#[verifier::external_body]
pub struct ExPathBuf(std::path::PathBuf);

/// What the controller is told on its command line.
#[derive(Debug)]
pub struct Cli {
    /// Address on which the controller listens.
    pub listen: String,
    /// URL of the daemon.
    pub clone_daemon: String,
    /// Token with which the controller calls the daemon.
    pub clone_auth_token: Option<String>,
    /// File that holds the tenants.
    pub state_file: std::path::PathBuf,
    /// Directory that holds the snapshots of the tenants.
    pub saves_root: String,
    /// Seconds between two looks at the tenants.
    pub reconcile_interval_secs: u64,
    /// Seconds of idleness after which a guest gives memory back.
    pub soft_reclaim_after_secs: u64,
    /// Seconds of idleness after which a guest is saved and stopped.
    pub hard_reclaim_after_secs: u32,
    /// Megabytes that a guest keeps when it gives memory back.
    pub balloon_target_mb: u32,
    /// Whether guests are probed.
    pub health_probe_enabled: bool,
    /// Probes that may fail in a row before a guest counts as idle.
    pub health_probe_fail_threshold: u32,
    /// Whether to start without asking whether the daemon is there.
    pub skip_daemon_health_check: bool,
}

/// The configuration that the controller works with.
#[derive(Debug)]
pub struct ControllerConfig {
    pub listen: String,
    pub clone_daemon_url: String,
    pub clone_auth_token: Option<String>,
    pub state_file: std::path::PathBuf,
    pub saves_root: String,
    pub reconcile_interval_secs: u64,
    pub soft_reclaim_after_secs: u64,
    pub hard_reclaim_after_secs: u32,
    pub balloon_target_mb: u32,
    pub health_probe_enabled: bool,
    pub health_probe_fail_threshold: u32,
    pub skip_daemon_health_check: bool,
}

/// The configuration that a command line gives.
pub open spec fn configured(c: Cli) -> ControllerConfig {
    ControllerConfig {
        listen: c.listen,
        clone_daemon_url: c.clone_daemon,
        clone_auth_token: c.clone_auth_token,
        state_file: c.state_file,
        saves_root: c.saves_root,
        reconcile_interval_secs: c.reconcile_interval_secs,
        soft_reclaim_after_secs: c.soft_reclaim_after_secs,
        hard_reclaim_after_secs: c.hard_reclaim_after_secs,
        balloon_target_mb: c.balloon_target_mb,
        health_probe_enabled: c.health_probe_enabled,
        health_probe_fail_threshold: c.health_probe_fail_threshold,
        skip_daemon_health_check: c.skip_daemon_health_check,
    }
}

impl From<Cli> for ControllerConfig {
    fn from(c: Cli) -> (r: Self) {
        ControllerConfig {
            listen: c.listen,
            clone_daemon_url: c.clone_daemon,
            clone_auth_token: c.clone_auth_token,
            state_file: c.state_file,
            saves_root: c.saves_root,
            reconcile_interval_secs: c.reconcile_interval_secs,
            soft_reclaim_after_secs: c.soft_reclaim_after_secs,
            hard_reclaim_after_secs: c.hard_reclaim_after_secs,
            balloon_target_mb: c.balloon_target_mb,
            health_probe_enabled: c.health_probe_enabled,
            health_probe_fail_threshold: c.health_probe_fail_threshold,
            skip_daemon_health_check: c.skip_daemon_health_check,
        }
    }
}

impl vstd::std_specs::convert::FromSpecImpl<Cli> for ControllerConfig {
    open spec fn obeys_from_spec() -> bool {
        true
    }

    open spec fn from_spec(c: Cli) -> Self {
        configured(c)
    }
}

} // verus!
