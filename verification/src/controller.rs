//! The controller's interface: registering tenants, and giving each a guest when
//! it is asked for one.
//!
//! Acquiring turns the status of a tenant into the right call to the daemon: a
//! tenant without a guest gets a new one, a saved guest is restored, and an idle
//! one gets its memory back.
use vstd::prelude::*;

use crate::clone_client::{AddressWait, CreateVmReq, CreateVmResp, RestoreReq};
use crate::config::ControllerConfig;
use crate::controller_metrics;
use crate::controller_metrics::{
    count_acquire_error, observe_acquire, tenant_added, tenant_removed, ControllerMetrics,
    ControllerMetricsView,
};
use crate::failure;
use crate::failure::Failure;
use crate::http::ApiError;
use crate::netns::CommandLine;
use crate::prom;
use crate::strmap::StrMap;
use crate::tenant::{TenantConfig, TenantState, VmStatus};
use crate::text;
use crate::text::{cat2, cat3, cat5, clone_option, decimal_string, trim};
use crate::timestamp::Timestamp;

verus! {

/// The tenants, and how the controller treats them.
#[derive(Debug)]
pub struct ControllerState {
    pub tenants: StrMap<TenantState>,
    pub config: ControllerConfig,
}

/// The tenants by id.
pub type Tenants = Map<Seq<char>, TenantState>;

/// The tenant has what its status promises: a saved guest has a snapshot, one
/// that serves or is idle has an id and an address, and a tenant without a guest
/// has no snapshot.
pub open spec fn sound(t: TenantState) -> bool {
    &&& t.status is NotFound ==> t.save_path is None
    &&& t.status is Saved ==> t.save_path is Some
    &&& t.status is Active || t.status is SoftReclaimed ==> t.vm_id is Some && t.guest_ip is Some
}

/// Each tenant is kept under its own id, and has what its status promises.
pub open spec fn consistent(tenants: Tenants) -> bool {
    forall|id: Seq<char>| #[trigger]
        tenants.dom().contains(id) ==> tenants[id].config.tenant_id@ == id && sound(tenants[id])
}

/// There is nothing but white space in `s`.
pub open spec fn blank(s: Seq<char>) -> bool {
    text::trimmed(s).len() == 0
}

/// What is wrong with the registration of a tenant, if anything: the status and
/// the message of the answer.
pub open spec fn registration_error(tenants: Tenants, cfg: TenantConfig) -> Option<
    (u16, Seq<char>),
> {
    if blank(cfg.tenant_id@) {
        Some((400, "tenant_id is required"@))
    } else if blank(cfg.kernel@) || blank(cfg.rootfs@) {
        Some((400, "kernel and rootfs are required"@))
    } else if blank(cfg.overlay_path@) {
        Some((400, "overlay_path is required"@))
    } else if tenants.dom().contains(cfg.tenant_id@) {
        Some((409, "tenant "@ + cfg.tenant_id@ + " already exists"@))
    } else {
        None
    }
}

/// The message on a tenant that is not registered.
pub open spec fn unknown(id: Seq<char>) -> Seq<char> {
    "tenant "@ + id + " not found"@
}

fn is_blank(s: &str) -> (b: bool)
    ensures
        b == blank(s@),
{
    trim(s).unicode_len() == 0
}

fn unknown_tenant(id: &str) -> (e: ApiError)
    ensures
        e.says(404, unknown(id@)),
{
    ApiError::not_found(cat3("tenant ", id, " not found"))
}

/// What is left to do when a tenant was deleted.
#[derive(Debug)]
pub struct Cleanup {
    /// Guest to be destroyed.
    pub destroy: Option<String>,
    /// Directory of a snapshot to be removed.
    pub remove_dir: Option<String>,
}

/// How a tenant gets its guest.
#[derive(Debug, Clone, Copy, PartialEq, Eq, Structural)]
pub enum Outcome {
    /// A new guest is started.
    ColdCreate,
    /// The guest is restored from its snapshot.
    Restore,
    /// The guest gets its memory back.
    Recover,
    /// The guest is there.
    FastPath,
}

impl Outcome {
    /// The outcome in words.
    pub open spec fn word(self) -> Seq<char> {
        match self {
            Outcome::ColdCreate => "cold_create"@,
            Outcome::Restore => "restore"@,
            Outcome::Recover => "recover"@,
            Outcome::FastPath => "fast_path"@,
        }
    }

    /// The outcome in words.
    pub fn as_str(&self) -> (s: &'static str)
        ensures
            s@ == self.word(),
    {
        match self {
            Outcome::ColdCreate => "cold_create",
            Outcome::Restore => "restore",
            Outcome::Recover => "recover",
            Outcome::FastPath => "fast_path",
        }
    }
}

/// How the tenant gets its guest. None while something else is going on with it.
pub open spec fn outcome_of(t: TenantState) -> Option<Outcome> {
    match t.status {
        VmStatus::NotFound => Some(Outcome::ColdCreate),
        VmStatus::Saved => Some(Outcome::Restore),
        VmStatus::SoftReclaimed => Some(Outcome::Recover),
        VmStatus::Active => Some(Outcome::FastPath),
        VmStatus::Starting => None,
        VmStatus::Saving => None,
        VmStatus::Failed(_) => if t.save_path is Some {
            Some(Outcome::Restore)
        } else {
            Some(Outcome::ColdCreate)
        },
    }
}

/// The kernel command line of a tenant's guest.
pub open spec fn cmdline_of(cfg: TenantConfig) -> Seq<char> {
    match cfg.init_cmd {
        Some(init) => "console=ttyS0 reboot=k panic=1 nokaslr quiet"@ + " clone.init="@ + init@,
        None => "console=ttyS0 reboot=k panic=1 nokaslr quiet"@,
    }
}

/// The kernel command line of a tenant's guest.
pub fn build_cmdline(cfg: &TenantConfig) -> (s: String)
    ensures
        s@ == cmdline_of(*cfg),
{
    match &cfg.init_cmd {
        Some(init) => cat3(
            "console=ttyS0 reboot=k panic=1 nokaslr quiet",
            " clone.init=",
            init.as_str(),
        ),
        None => "console=ttyS0 reboot=k panic=1 nokaslr quiet".to_owned(),
    }
}

/// What has to be done to start a new guest for a tenant.
#[derive(Debug)]
pub struct ColdStart {
    /// Overlay that has to be there first.
    pub overlay_path: String,
    /// What the daemon is asked.
    pub request: CreateVmReq,
    /// Port that has to be open in the end.
    pub health_port: Option<u16>,
}

/// `c` starts the guest that the tenant registered for.
pub open spec fn starts(c: ColdStart, cfg: TenantConfig) -> bool {
    &&& c.overlay_path == cfg.overlay_path
    &&& c.health_port == cfg.app_health_port
    &&& c.request.cmdline is Some
    &&& c.request.cmdline->0@ == cmdline_of(cfg)
    &&& c.request == (CreateVmReq {
        kernel: cfg.kernel,
        rootfs: Some(cfg.rootfs),
        overlay: Some(cfg.overlay_path),
        shared_dir: cfg.shared_dir,
        cmdline: c.request.cmdline,
        mem_mb: Some(cfg.mem_mb),
        vcpus: Some(1),
        net: Some(true),
        memory_limit_mb: cfg.memory_limit_mb,
    })
}

/// The answer to an acquire that succeeded.
#[derive(Debug)]
pub struct AcquireResp {
    pub ip: String,
    pub vm_id: String,
    pub status: &'static str,
    pub outcome: &'static str,
}

/// The text, or the empty one where it is missing.
pub open spec fn text_or_empty(s: Option<String>) -> Seq<char> {
    match s {
        Some(t) => t@,
        None => seq![],
    }
}

fn or_empty(s: &Option<String>) -> (r: String)
    ensures
        r@ == text_or_empty(*s),
{
    match s {
        Some(t) => t.clone(),
        None => String::new(),
    }
}

impl ControllerState {
    /// A controller with the tenants that were loaded.
    pub fn new(config: ControllerConfig, tenants: StrMap<TenantState>) -> (s: Self)
        ensures
            s.config == config,
            s.tenants == tenants,
    {
        ControllerState { tenants, config }
    }

    /// Registers a tenant. Its id is given back.
    pub fn create_tenant(
        &mut self,
        cfg: TenantConfig,
        now: Timestamp,
        prom: &mut ControllerMetrics,
    ) -> (r: Result<String, ApiError>)
        ensures
            final(self).config == old(self).config,
            consistent(old(self).tenants@) ==> consistent(final(self).tenants@),
            match registration_error(old(self).tenants@, cfg) {
                Some((status, message)) => {
                    &&& r is Err
                    &&& r->Err_0.says(status, message)
                    &&& final(self).tenants@ == old(self).tenants@
                    &&& final(prom)@ == old(prom)@
                },
                None => {
                    &&& r is Ok
                    &&& r->Ok_0@ == cfg.tenant_id@
                    &&& final(self).tenants@ == old(self).tenants@.insert(
                        cfg.tenant_id@,
                        TenantState::fresh(cfg, now),
                    )
                    &&& final(prom)@ == (ControllerMetricsView {
                        tenants_total: controller_metrics::gauge_up(old(prom)@.tenants_total),
                        ..old(prom)@
                    })
                },
            },
    {
        if is_blank(cfg.tenant_id.as_str()) {
            return Err(ApiError::bad_request("tenant_id is required".to_owned()));
        }
        if is_blank(cfg.kernel.as_str()) || is_blank(cfg.rootfs.as_str()) {
            return Err(ApiError::bad_request("kernel and rootfs are required".to_owned()));
        }
        if is_blank(cfg.overlay_path.as_str()) {
            return Err(ApiError::bad_request("overlay_path is required".to_owned()));
        }
        if self.tenants.contains_key(cfg.tenant_id.as_str()) {
            return Err(
                ApiError {
                    status: 409,
                    message: cat3("tenant ", cfg.tenant_id.as_str(), " already exists"),
                },
            );
        }
        let id = cfg.tenant_id.clone();
        let key = cfg.tenant_id.clone();
        self.tenants.insert(key, TenantState::new(cfg, now));
        tenant_added(prom);
        Ok(id)
    }

    /// All tenants, each once.
    pub fn list_tenants(&self) -> (r: Vec<&TenantState>)
        ensures
            r@.len() == self.tenants.keys().len(),
            forall|i: int| 0 <= i < r@.len() ==> *(#[trigger] r@[i]) == self.tenants@[self.tenants.keys()[i]],
            self.tenants.keys().no_duplicates(),
    {
        let mut r: Vec<&TenantState> = Vec::new();
        let n: usize = self.tenants.len();
        let mut i: usize = 0;
        while i < n
            invariant
                i <= n == self.tenants.keys().len(),
                r@.len() == i,
                forall|j: int|
                    0 <= j < i ==> *(#[trigger] r@[j]) == self.tenants@[self.tenants.keys()[j]],
            decreases n - i,
        {
            r.push(self.tenants.value_at(i));
            i = i + 1;
        }
        r
    }

    /// A tenant.
    pub fn get_tenant(&self, id: &str) -> (r: Result<&TenantState, ApiError>)
        ensures
            match r {
                Ok(t) => self.tenants@.dom().contains(id@) && *t == self.tenants@[id@],
                Err(e) => !self.tenants@.dom().contains(id@) && e.says(404, unknown(id@)),
            },
    {
        match self.tenants.get(id) {
            Some(t) => Ok(t),
            None => Err(unknown_tenant(id)),
        }
    }

    /// Deletes a tenant. A guest that it still has is to be destroyed, and its
    /// snapshot is to be removed.
    pub fn delete_tenant(&mut self, id: &str, prom: &mut ControllerMetrics) -> (r: Result<
        Cleanup,
        ApiError,
    >)
        ensures
            final(self).config == old(self).config,
            consistent(old(self).tenants@) ==> consistent(final(self).tenants@),
            final(self).tenants@ == old(self).tenants@.remove(id@),
            match r {
                Ok(c) => {
                    let t = old(self).tenants@[id@];
                    &&& old(self).tenants@.dom().contains(id@)
                    &&& c.destroy == (if t.status is Saved || t.status is NotFound {
                        None
                    } else {
                        t.vm_id
                    })
                    &&& c.remove_dir == t.save_path
                    &&& final(prom)@ == (ControllerMetricsView {
                        tenants_total: controller_metrics::gauge_down(old(prom)@.tenants_total),
                        ..old(prom)@
                    })
                },
                Err(e) => {
                    &&& !old(self).tenants@.dom().contains(id@)
                    &&& e.says(404, unknown(id@))
                    &&& final(prom)@ == old(prom)@
                },
            },
    {
        match self.tenants.remove(id) {
            Some(t) => {
                tenant_removed(prom);
                let destroy = match t.status {
                    VmStatus::Saved | VmStatus::NotFound => None,
                    _ => t.vm_id,
                };
                Ok(Cleanup { destroy, remove_dir: t.save_path })
            },
            None => Err(unknown_tenant(id)),
        }
    }

    /// Decides how a tenant gets its guest.
    pub fn begin_acquire(&self, id: &str) -> (r: Result<Outcome, ApiError>)
        ensures
            match r {
                Ok(o) => self.tenants@.dom().contains(id@) && outcome_of(self.tenants@[id@]) == Some(o),
                Err(e) => if self.tenants@.dom().contains(id@) {
                    &&& outcome_of(self.tenants@[id@]) is None
                    &&& e.says(
                        503,
                        "tenant "@ + id@ + " is "@ + self.tenants@[id@].status.word()
                            + ", retry later"@,
                    )
                } else {
                    e.says(404, unknown(id@))
                },
            },
    {
        let t = match self.tenants.get(id) {
            Some(t) => t,
            None => {
                return Err(unknown_tenant(id));
            },
        };
        match t.status {
            VmStatus::NotFound => Ok(Outcome::ColdCreate),
            VmStatus::Saved => Ok(Outcome::Restore),
            VmStatus::SoftReclaimed => Ok(Outcome::Recover),
            VmStatus::Active => Ok(Outcome::FastPath),
            VmStatus::Starting | VmStatus::Saving => Err(
                ApiError {
                    status: 503,
                    message: cat5("tenant ", id, " is ", t.status.as_str(), ", retry later"),
                },
            ),
            VmStatus::Failed(_) => {
                if t.save_path.is_some() {
                    Ok(Outcome::Restore)
                } else {
                    Ok(Outcome::ColdCreate)
                }
            },
        }
    }

    /// Begins to start a new guest for a tenant.
    pub fn start_cold_create(&mut self, id: &str) -> (r: Result<ColdStart, Failure>)
        ensures
            final(self).config == old(self).config,
            consistent(old(self).tenants@) ==> consistent(final(self).tenants@),
            match r {
                Ok(c) => {
                    let t = old(self).tenants@[id@];
                    &&& old(self).tenants@.dom().contains(id@)
                    &&& starts(c, t.config)
                    &&& final(self).tenants@ == old(self).tenants@.insert(
                        id@,
                        TenantState { status: VmStatus::Starting, ..t },
                    )
                },
                Err(e) => {
                    &&& !old(self).tenants@.dom().contains(id@)
                    &&& e@ == seq!["tenant vanished"@]
                    &&& final(self).tenants@ == old(self).tenants@
                },
            },
    {
        let cfg = match self.tenants.get_mut(id) {
            Some(t) => {
                t.status = VmStatus::Starting;
                t.config.clone()
            },
            None => {
                return Err(Failure::new("tenant vanished".to_owned()));
            },
        };
        let cmdline = build_cmdline(&cfg);
        Ok(
            ColdStart {
                overlay_path: cfg.overlay_path.clone(),
                request: CreateVmReq {
                    kernel: cfg.kernel,
                    rootfs: Some(cfg.rootfs),
                    overlay: Some(cfg.overlay_path),
                    shared_dir: cfg.shared_dir,
                    cmdline: Some(cmdline),
                    mem_mb: Some(cfg.mem_mb),
                    vcpus: Some(1),
                    net: Some(true),
                    memory_limit_mb: cfg.memory_limit_mb,
                },
                health_port: cfg.app_health_port,
            },
        )
    }

    /// Begins to restore a tenant's guest from its snapshot.
    pub fn start_restore(&mut self, id: &str) -> (r: Result<RestoreReq, Failure>)
        ensures
            final(self).config == old(self).config,
            consistent(old(self).tenants@) ==> consistent(final(self).tenants@),
            match r {
                Ok(req) => {
                    let t = old(self).tenants@[id@];
                    &&& old(self).tenants@.dom().contains(id@)
                    &&& t.save_path is Some
                    &&& req == (RestoreReq {
                        snapshot_path: t.save_path->0,
                        net: Some(true),
                        shared_dir: t.config.shared_dir,
                        memory_limit_mb: t.config.memory_limit_mb,
                    })
                    &&& final(self).tenants@ == old(self).tenants@.insert(
                        id@,
                        TenantState { status: VmStatus::Starting, ..t },
                    )
                },
                Err(e) => {
                    &&& final(self).tenants@ == old(self).tenants@
                    &&& if old(self).tenants@.dom().contains(id@) {
                        &&& old(self).tenants@[id@].save_path is None
                        &&& e@ == seq!["no save_path; cannot restore"@]
                    } else {
                        e@ == seq!["tenant vanished"@]
                    }
                },
            },
    {
        let ghost before = self.tenants@;
        match self.tenants.get_mut(id) {
            Some(t) => match &t.save_path {
                Some(p) => {
                    let snapshot_path = p.clone();
                    t.status = VmStatus::Starting;
                    Ok(
                        RestoreReq {
                            snapshot_path,
                            net: Some(true),
                            shared_dir: clone_option(&t.config.shared_dir),
                            memory_limit_mb: t.config.memory_limit_mb,
                        },
                    )
                },
                None => {
                    assert(before.insert(id@, before[id@]) =~= before);
                    Err(Failure::new("no save_path; cannot restore".to_owned()))
                },
            },
            None => Err(Failure::new("tenant vanished".to_owned())),
        }
    }

    /// Completes a start: the tenant's guest is there.
    pub fn finish_start(&mut self, id: &str, vm_id: String, ip: String)
        requires
            old(self).tenants@.dom().contains(id@),
        ensures
            final(self).config == old(self).config,
            consistent(old(self).tenants@) ==> consistent(final(self).tenants@),
            final(self).tenants@ == old(self).tenants@.insert(
                id@,
                TenantState {
                    status: VmStatus::Active,
                    vm_id: Some(vm_id),
                    guest_ip: Some(ip),
                    ..old(self).tenants@[id@]
                },
            ),
    {
        if let Some(t) = self.tenants.get_mut(id) {
            t.status = VmStatus::Active;
            t.vm_id = Some(vm_id);
            t.guest_ip = Some(ip);
        }
    }

    /// Begins to give a tenant's guest its memory back: which guest, and how many
    /// megabytes.
    pub fn start_recover(&self, id: &str) -> (r: Result<(String, u32), Failure>)
        requires
            self.tenants@.dom().contains(id@),
        ensures
            match r {
                Ok((vm_id, mem_mb)) => {
                    &&& self.tenants@[id@].vm_id == Some(vm_id)
                    &&& mem_mb == self.tenants@[id@].config.mem_mb
                },
                Err(e) => {
                    &&& self.tenants@[id@].vm_id is None
                    &&& e@ == seq!["no vm_id; cannot recover"@]
                },
            },
    {
        match self.tenants.get(id) {
            Some(t) => match &t.vm_id {
                Some(vm_id) => Ok((vm_id.clone(), t.config.mem_mb)),
                None => Err(Failure::new("no vm_id; cannot recover".to_owned())),
            },
            None => Err(Failure::new("tenant vanished".to_owned())),
        }
    }

    /// Completes a recovery: the tenant's guest serves again.
    pub fn finish_recover(&mut self, id: &str)
        requires
            old(self).tenants@.dom().contains(id@),
        ensures
            final(self).config == old(self).config,
            consistent(old(self).tenants@) && sound(
                TenantState { status: VmStatus::Active, ..old(self).tenants@[id@] },
            ) ==> consistent(final(self).tenants@),
            final(self).tenants@ == old(self).tenants@.insert(
                id@,
                TenantState { status: VmStatus::Active, ..old(self).tenants@[id@] },
            ),
    {
        if let Some(t) = self.tenants.get_mut(id) {
            t.status = VmStatus::Active;
        }
    }

    /// Gives up on an acquire that failed after so many nanoseconds. How long it
    /// took is recorded among the errors, which are counted by the outcome that was
    /// meant.
    pub fn fail_acquire(
        &mut self,
        id: &str,
        outcome: Outcome,
        e: &Failure,
        nanos: u64,
        prom: &mut ControllerMetrics,
    ) -> (r: ApiError)
        ensures
            final(self).config == old(self).config,
            consistent(old(self).tenants@) ==> consistent(final(self).tenants@),
            r.says(500, failure::joined_messages(e@)),
            final(prom)@ == (ControllerMetricsView {
                acquire_duration: prom::with_observation(
                    old(prom)@.acquire_duration,
                    seq!["error"@],
                    nanos,
                ),
                acquire_errors: prom::counted(old(prom)@.acquire_errors, seq![outcome.word()]),
                ..old(prom)@
            }),
            !old(self).tenants@.dom().contains(id@) ==> final(self).tenants@ == old(self).tenants@,
            old(self).tenants@.dom().contains(id@) ==> failed_with(
                old(self).tenants@,
                final(self).tenants@,
                id@,
                e@[0],
            ),
    {
        let ghost before = self.tenants@;
        observe_acquire(prom, "error", nanos);
        count_acquire_error(prom, outcome.as_str());
        if let Some(t) = self.tenants.get_mut(id) {
            t.status = VmStatus::Failed(e.message());
            t.last_error = Some(e.message());
        }
        assert(self.tenants@.dom() =~= before.dom());
        ApiError::internal(e.full())
    }

    /// Completes an acquire that succeeded after so many nanoseconds.
    pub fn finish_acquire(
        &mut self,
        id: &str,
        outcome: Outcome,
        now: Timestamp,
        nanos: u64,
        prom: &mut ControllerMetrics,
    ) -> (r: Result<AcquireResp, ApiError>)
        ensures
            final(self).config == old(self).config,
            consistent(old(self).tenants@) ==> consistent(final(self).tenants@),
            final(prom)@ == (ControllerMetricsView {
                acquire_duration: prom::with_observation(
                    old(prom)@.acquire_duration,
                    seq![outcome.word()],
                    nanos,
                ),
                ..old(prom)@
            }),
            match r {
                Ok(a) => {
                    let t = old(self).tenants@[id@];
                    &&& old(self).tenants@.dom().contains(id@)
                    &&& final(self).tenants@ == old(self).tenants@.insert(
                        id@,
                        TenantState {
                            last_request_at: Some(now),
                            health_fail_count: 0,
                            last_error: None,
                            ..t
                        },
                    )
                    &&& a.ip@ == text_or_empty(t.guest_ip)
                    &&& a.vm_id@ == text_or_empty(t.vm_id)
                    &&& a.status@ == "active"@
                    &&& a.outcome@ == outcome.word()
                },
                Err(e) => {
                    &&& !old(self).tenants@.dom().contains(id@)
                    &&& final(self).tenants@ == old(self).tenants@
                    &&& e.says(500, "tenant vanished"@)
                },
            },
    {
        observe_acquire(prom, outcome.as_str(), nanos);
        match self.tenants.get_mut(id) {
            Some(t) => {
                t.last_request_at = Some(now);
                t.health_fail_count = 0;
                t.last_error = None;
                Ok(
                    AcquireResp {
                        ip: or_empty(&t.guest_ip),
                        vm_id: or_empty(&t.vm_id),
                        status: "active",
                        outcome: outcome.as_str(),
                    },
                )
            },
            None => Err(ApiError::internal("tenant vanished".to_owned())),
        }
    }

    /// Notes that a tenant was used. An idle guest that has given memory back
    /// counts as serving again.
    pub fn release(&mut self, id: &str, now: Timestamp) -> (r: Result<(), ApiError>)
        ensures
            final(self).config == old(self).config,
            consistent(old(self).tenants@) ==> consistent(final(self).tenants@),
            match r {
                Ok(_) => {
                    let t = old(self).tenants@[id@];
                    &&& old(self).tenants@.dom().contains(id@)
                    &&& final(self).tenants@ == old(self).tenants@.insert(
                        id@,
                        TenantState {
                            last_request_at: Some(now),
                            status: if t.status is SoftReclaimed {
                                VmStatus::Active
                            } else {
                                t.status
                            },
                            ..t
                        },
                    )
                },
                Err(e) => {
                    &&& !old(self).tenants@.dom().contains(id@)
                    &&& final(self).tenants@ == old(self).tenants@
                    &&& e.says(404, unknown(id@))
                },
            },
    {
        match self.tenants.get_mut(id) {
            Some(t) => {
                t.last_request_at = Some(now);
                match t.status {
                    VmStatus::SoftReclaimed => {
                        t.status = VmStatus::Active;
                    },
                    _ => {},
                }
                Ok(())
            },
            None => Err(unknown_tenant(id)),
        }
    }
}

/// The tenant failed for the reason given, and nothing else of it changed.
pub open spec fn failed_with(
    before: Tenants,
    after: Tenants,
    id: Seq<char>,
    reason: Seq<char>,
) -> bool {
    &&& after.dom() == before.dom()
    &&& after == before.insert(id, after[id])
    &&& after[id].status matches VmStatus::Failed(message)
    &&& message@ == reason
    &&& after[id].last_error is Some
    &&& after[id].last_error->0@ == reason
    &&& after[id] == (TenantState {
        status: after[id].status,
        last_error: after[id].last_error,
        ..before[id]
    })
}

/// The failure of an acquire whose guest got no address. The guest is to be
/// destroyed.
pub fn address_failure(outcome: Outcome, e: Failure) -> (f: Failure)
    ensures
        f@ == (if outcome == Outcome::Restore {
            seq!["fetch_guest_ip after restore"@] + e@
        } else {
            seq!["fetch_guest_ip"@] + e@
        }),
{
    if outcome == Outcome::Restore {
        e.context("fetch_guest_ip after restore")
    } else {
        e.context("fetch_guest_ip")
    }
}

/// What makes an overlay: a file of four gigabytes, and a file system in it.
/// None, if there is a file already.
pub fn ensure_overlay(path: &str, exists: bool) -> (r: Option<(CommandLine, CommandLine)>)
    ensures
        r is None <==> exists,
        r matches Some((allocate, format)) ==> {
            &&& allocate.runs("fallocate"@, seq!["-l"@, "4G"@, path@])
            &&& format.runs("mkfs.ext4"@, seq!["-q"@, "-F"@, path@])
        },
{
    if exists {
        return None;
    }
    let mut first: Vec<String> = Vec::new();
    first.push("-l".to_owned());
    first.push("4G".to_owned());
    first.push(path.to_owned());
    let mut second: Vec<String> = Vec::new();
    second.push("-q".to_owned());
    second.push("-F".to_owned());
    second.push(path.to_owned());
    assert(first@.map_values(|a: String| a@) =~= seq!["-l"@, "4G"@, path@]);
    assert(second@.map_values(|a: String| a@) =~= seq!["-q"@, "-F"@, path@]);
    Some(
        (
            CommandLine { program: "fallocate".to_owned(), args: first },
            CommandLine { program: "mkfs.ext4".to_owned(), args: second },
        ),
    )
}

/// Judges the command that allocates an overlay. Only whether it could be run
/// matters; `run` says why not.
pub fn allocated(run: Result<(), String>) -> (r: Result<(), Failure>)
    ensures
        r is Ok <==> run is Ok,
        r is Err ==> r->Err_0@ == seq!["fallocate failed: "@ + run->Err_0@],
{
    match run {
        Ok(_) => Ok(()),
        Err(e) => Err(Failure::new(cat2("fallocate failed: ", e.as_str()))),
    }
}

/// An exit code in words.
pub open spec fn exit_word(code: Option<u8>) -> Seq<char> {
    match code {
        Some(n) => "Some("@ + text::decimal(n as nat) + ")"@,
        None => "None"@,
    }
}

/// Judges the command that makes a file system in an overlay. `run` is its exit
/// code, which is missing where a signal ended it, or why it could not be run.
pub fn formatted(run: Result<Option<u8>, String>) -> (r: Result<(), Failure>)
    ensures
        r is Ok <==> run == Ok::<Option<u8>, String>(Some(0)),
        r is Err ==> r->Err_0@ == (match run {
            Ok(code) => seq!["mkfs.ext4 exit "@ + exit_word(code)],
            Err(e) => seq![e@],
        }),
{
    match run {
        Ok(Some(n)) => {
            if n == 0 {
                Ok(())
            } else {
                let number = decimal_string(n as u64);
                let word = cat3("Some(", number.as_str(), ")");
                Err(Failure::new(cat2("mkfs.ext4 exit ", word.as_str())))
            }
        },
        Ok(None) => Err(Failure::new(cat2("mkfs.ext4 exit ", "None"))),
        Err(e) => Err(Failure::new(e)),
    }
}

/// How long a tenant's port is given to open, in nanoseconds.
pub const PORT_TIMEOUT_NANOS: u64 = 15_000_000_000;

/// What to do about a port that has to open.
#[derive(Debug)]
pub enum PortWait {
    /// It is open.
    Open,
    /// Try again in a moment.
    Retry,
    /// It took too long.
    GiveUp(Failure),
}

/// What came of an attempt to reach a port.
#[derive(Debug)]
pub enum PortAttempt {
    Connected,
    Refused,
    /// The guest's address is none, for this reason.
    BadAddress(String),
}

/// Judges an attempt to reach a port, `waited` nanoseconds after the first.
pub fn wait_for_port(ip: &str, port: u16, attempt: PortAttempt, waited: u64) -> (w: PortWait)
    ensures
        match attempt {
            PortAttempt::Connected => w is Open,
            PortAttempt::Refused => if waited < PORT_TIMEOUT_NANOS {
                w is Retry
            } else {
                w matches PortWait::GiveUp(f) && f@ == seq![
                    "app port "@ + text::decimal(port as nat) + " on "@ + ip@
                        + " not up within 15s"@,
                ]
            },
            PortAttempt::BadAddress(reason) => w matches PortWait::GiveUp(f) && f@ == seq![
                "bad ip:port: "@ + reason@,
            ],
        },
{
    match attempt {
        PortAttempt::Connected => PortWait::Open,
        PortAttempt::Refused => {
            if waited >= PORT_TIMEOUT_NANOS {
                let number = decimal_string(port as u64);
                PortWait::GiveUp(
                    Failure::new(
                        cat5("app port ", number.as_str(), " on ", ip, " not up within 15s"),
                    ),
                )
            } else {
                PortWait::Retry
            }
        },
        PortAttempt::BadAddress(reason) => PortWait::GiveUp(
            Failure::new(cat2("bad ip:port: ", reason.as_str())),
        ),
    }
}

/// What the controller does next to give a tenant its guest.
#[derive(Debug)]
#[allow(inconsistent_fields)]
pub enum AcquireTurn {
    /// See whether the overlay is there.
    CheckOverlay(ColdStart),
    /// Run the command that allocates the overlay; the one that makes a file
    /// system in it is to follow.
    Allocate { start: ColdStart, command: CommandLine, then: CommandLine },
    /// Run the command that makes a file system in the overlay.
    Format { start: ColdStart, command: CommandLine },
    /// Ask the daemon for a new guest.
    Create { request: CreateVmReq, health_port: Option<u16> },
    /// Ask the daemon to restore the guest.
    Restore { request: RestoreReq },
    /// Ask the guest for its address until it has one.
    FindAddress { vm_id: String, outcome: Outcome, health_port: Option<u16> },
    /// Ask the daemon to destroy the guest, whatever comes of it, and fail.
    Discard { vm_id: String, failure: Failure },
    /// Try to reach a port of the guest until it is open.
    AwaitPort { vm_id: String, ip: String, port: u16 },
    /// Ask the daemon to give the guest so many megabytes.
    Balloon { vm_id: String, target_mb: u32 },
    /// The guest is there: note it, and complete the acquire.
    Started { vm_id: String, ip: String },
    /// The guest has its memory back: note it, and complete the acquire.
    Recovered,
    /// Complete the acquire.
    Ready,
    /// Give the acquire up.
    Fail(Failure),
}

/// The first turn of an acquire that is to have the given outcome, and what it
/// makes of the tenants.
pub open spec fn acquire_begun(
    before: Tenants,
    after: Tenants,
    id: Seq<char>,
    outcome: Outcome,
    turn: AcquireTurn,
) -> bool {
    let t = before[id];
    let starting = before.insert(id, TenantState { status: VmStatus::Starting, ..t });
    match outcome {
        Outcome::ColdCreate => {
            &&& after == starting
            &&& turn matches AcquireTurn::CheckOverlay(start)
            &&& starts(start, t.config)
        },
        Outcome::Restore => match t.save_path {
            Some(path) => {
                &&& after == starting
                &&& turn == (AcquireTurn::Restore {
                    request: RestoreReq {
                        snapshot_path: path,
                        net: Some(true),
                        shared_dir: t.config.shared_dir,
                        memory_limit_mb: t.config.memory_limit_mb,
                    },
                })
            },
            None => {
                &&& after == before
                &&& turn matches AcquireTurn::Fail(e)
                &&& e@ == seq!["no save_path; cannot restore"@]
            },
        },
        Outcome::Recover => {
            &&& after == before
            &&& match t.vm_id {
                Some(vm_id) => turn == (AcquireTurn::Balloon {
                    vm_id,
                    target_mb: t.config.mem_mb,
                }),
                None => turn matches AcquireTurn::Fail(e) && e@ == seq![
                    "no vm_id; cannot recover"@,
                ],
            }
        },
        Outcome::FastPath => after == before && turn is Ready,
    }
}

impl ControllerState {
    /// Begins an acquire: decides how the tenant gets its guest, and gives the
    /// first turn.
    pub fn acquire(&mut self, id: &str) -> (r: Result<(Outcome, AcquireTurn), ApiError>)
        ensures
            final(self).config == old(self).config,
            consistent(old(self).tenants@) ==> consistent(final(self).tenants@),
            match r {
                Ok((outcome, turn)) => {
                    &&& old(self).tenants@.dom().contains(id@)
                    &&& outcome_of(old(self).tenants@[id@]) == Some(outcome)
                    &&& acquire_begun(
                        old(self).tenants@,
                        final(self).tenants@,
                        id@,
                        outcome,
                        turn,
                    )
                },
                Err(e) => {
                    &&& final(self).tenants@ == old(self).tenants@
                    &&& if old(self).tenants@.dom().contains(id@) {
                        &&& outcome_of(old(self).tenants@[id@]) is None
                        &&& e.says(
                            503,
                            "tenant "@ + id@ + " is "@ + old(self).tenants@[id@].status.word()
                                + ", retry later"@,
                        )
                    } else {
                        e.says(404, unknown(id@))
                    }
                },
            },
    {
        let outcome = self.begin_acquire(id)?;
        let turn = match outcome {
            Outcome::ColdCreate => match self.start_cold_create(id) {
                Ok(start) => AcquireTurn::CheckOverlay(start),
                Err(e) => AcquireTurn::Fail(e),
            },
            Outcome::Restore => match self.start_restore(id) {
                Ok(request) => AcquireTurn::Restore { request },
                Err(e) => AcquireTurn::Fail(e),
            },
            Outcome::Recover => match self.start_recover(id) {
                Ok((vm_id, target_mb)) => AcquireTurn::Balloon { vm_id, target_mb },
                Err(e) => AcquireTurn::Fail(e),
            },
            Outcome::FastPath => AcquireTurn::Ready,
        };
        Ok((outcome, turn))
    }
}

/// Goes on when it is known whether the overlay is there.
pub fn after_overlay_check(start: ColdStart, exists: bool) -> (turn: AcquireTurn)
    ensures
        exists ==> turn == (AcquireTurn::Create {
            request: start.request,
            health_port: start.health_port,
        }),
        !exists ==> {
            &&& turn matches AcquireTurn::Allocate { start: s, command, then }
            &&& s == start
            &&& command.runs("fallocate"@, seq!["-l"@, "4G"@, start.overlay_path@])
            &&& then.runs("mkfs.ext4"@, seq!["-q"@, "-F"@, start.overlay_path@])
        },
{
    match ensure_overlay(start.overlay_path.as_str(), exists) {
        None => AcquireTurn::Create { request: start.request, health_port: start.health_port },
        Some((command, then)) => AcquireTurn::Allocate { start, command, then },
    }
}

/// Goes on when the overlay was allocated, or was not.
pub fn after_allocate(start: ColdStart, then: CommandLine, run: Result<(), String>) -> (turn:
    AcquireTurn)
    ensures
        match run {
            Ok(_) => turn == (AcquireTurn::Format { start, command: then }),
            Err(e) => turn matches AcquireTurn::Fail(f) && f@ == seq!["fallocate failed: "@ + e@],
        },
{
    match allocated(run) {
        Ok(_) => AcquireTurn::Format { start, command: then },
        Err(f) => AcquireTurn::Fail(f),
    }
}

/// Goes on when the overlay has a file system, or has not.
pub fn after_format(start: ColdStart, run: Result<Option<u8>, String>) -> (turn: AcquireTurn)
    ensures
        run == Ok::<Option<u8>, String>(Some(0)) ==> turn == (AcquireTurn::Create {
            request: start.request,
            health_port: start.health_port,
        }),
        run != Ok::<Option<u8>, String>(Some(0)) ==> (turn matches AcquireTurn::Fail(f) && f@ == (
        match run {
            Ok(code) => seq!["mkfs.ext4 exit "@ + exit_word(code)],
            Err(e) => seq![e@],
        })),
{
    match formatted(run) {
        Ok(_) => AcquireTurn::Create { request: start.request, health_port: start.health_port },
        Err(f) => AcquireTurn::Fail(f),
    }
}

/// Goes on when the daemon has started a guest, or has not. `health_port` is the
/// port that has to open; a restored guest has none.
pub fn after_launch(
    answer: Result<CreateVmResp, Failure>,
    outcome: Outcome,
    health_port: Option<u16>,
) -> (turn: AcquireTurn)
    ensures
        match answer {
            Ok(resp) => turn == (AcquireTurn::FindAddress {
                vm_id: resp.vm_id,
                outcome,
                health_port,
            }),
            Err(e) => turn == AcquireTurn::Fail(e),
        },
{
    match answer {
        Ok(resp) => AcquireTurn::FindAddress { vm_id: resp.vm_id, outcome, health_port },
        Err(e) => AcquireTurn::Fail(e),
    }
}

/// Goes on when the guest was asked for its address. A guest that gets none is
/// destroyed, so that the next attempt starts clean.
pub fn after_address(
    vm_id: String,
    outcome: Outcome,
    health_port: Option<u16>,
    wait: AddressWait,
) -> (turn: AcquireTurn)
    ensures
        match wait {
            AddressWait::Found(ip) => match health_port {
                Some(port) => turn == (AcquireTurn::AwaitPort { vm_id, ip, port }),
                None => turn == (AcquireTurn::Started { vm_id, ip }),
            },
            AddressWait::Retry => turn == (AcquireTurn::FindAddress { vm_id, outcome, health_port }),
            AddressWait::GiveUp(e) => {
                &&& turn matches AcquireTurn::Discard { vm_id: gone, failure }
                &&& gone == vm_id
                &&& failure@ == (if outcome == Outcome::Restore {
                    seq!["fetch_guest_ip after restore"@] + e@
                } else {
                    seq!["fetch_guest_ip"@] + e@
                })
            },
        },
{
    match wait {
        AddressWait::Found(ip) => match health_port {
            Some(port) => AcquireTurn::AwaitPort { vm_id, ip, port },
            None => AcquireTurn::Started { vm_id, ip },
        },
        AddressWait::Retry => AcquireTurn::FindAddress { vm_id, outcome, health_port },
        AddressWait::GiveUp(e) => AcquireTurn::Discard {
            vm_id,
            failure: address_failure(outcome, e),
        },
    }
}

/// Goes on when a port of the guest was tried. A guest whose port does not open
/// is left as it is.
pub fn after_port(vm_id: String, ip: String, port: u16, wait: PortWait) -> (turn: AcquireTurn)
    ensures
        match wait {
            PortWait::Open => turn == (AcquireTurn::Started { vm_id, ip }),
            PortWait::Retry => turn == (AcquireTurn::AwaitPort { vm_id, ip, port }),
            PortWait::GiveUp(e) => turn == AcquireTurn::Fail(e),
        },
{
    match wait {
        PortWait::Open => AcquireTurn::Started { vm_id, ip },
        PortWait::Retry => AcquireTurn::AwaitPort { vm_id, ip, port },
        PortWait::GiveUp(e) => AcquireTurn::Fail(e),
    }
}

/// Goes on when the guest has its memory back, or has not.
pub fn after_balloon(answer: Result<(), Failure>) -> (turn: AcquireTurn)
    ensures
        match answer {
            Ok(_) => turn is Recovered,
            Err(e) => turn == AcquireTurn::Fail(e),
        },
{
    match answer {
        Ok(_) => AcquireTurn::Recovered,
        Err(e) => AcquireTurn::Fail(e),
    }
}

/// A controller that is restarted finds each tenant under its own id and with
/// what its status promises, if it left them so.
pub proof fn lemma_restart_is_consistent(left: Tenants, tenants: Tenants)
    requires
        consistent(left),
        tenants.dom() == left.dom(),
        forall|id: Seq<char>| #[trigger]
            left.dom().contains(id) ==> tenants[id] == left[id].restarted(),
    ensures
        consistent(tenants),
        forall|id: Seq<char>| #[trigger]
            tenants.dom().contains(id) ==> outcome_of(tenants[id]) is Some,
{
    assert forall|id: Seq<char>| #[trigger] tenants.dom().contains(id) implies
        tenants[id].config.tenant_id@ == id && sound(tenants[id]) && outcome_of(tenants[id])
        is Some by {
        assert(left.dom().contains(id));
    }
}

/// An acquire always gets under way: where each tenant has what its status
/// promises, the first turn is never to give up.
pub proof fn lemma_acquire_gets_under_way(
    before: Tenants,
    after: Tenants,
    id: Seq<char>,
    outcome: Outcome,
    turn: AcquireTurn,
)
    requires
        consistent(before),
        before.dom().contains(id),
        outcome_of(before[id]) == Some(outcome),
        acquire_begun(before, after, id, outcome, turn),
    ensures
        !(turn is Fail),
        outcome == Outcome::FastPath ==> before[id].vm_id is Some && before[id].guest_ip is Some,
{
}

/// A tenant that was registered can be found, and cannot be registered again
/// until it is deleted; then it is as if it had never been there.
pub proof fn lemma_registration(tenants: Tenants, cfg: TenantConfig, now: Timestamp)
    requires
        registration_error(tenants, cfg) is None,
    ensures
        ({
            let after = tenants.insert(cfg.tenant_id@, TenantState::fresh(cfg, now));
            &&& after.dom().contains(cfg.tenant_id@)
            &&& after[cfg.tenant_id@].config == cfg
            &&& outcome_of(after[cfg.tenant_id@]) == Some(Outcome::ColdCreate)
            &&& registration_error(after, cfg) matches Some((status, _)) && status == 409
            &&& after.remove(cfg.tenant_id@) == tenants
        }),
{
    let after = tenants.insert(cfg.tenant_id@, TenantState::fresh(cfg, now));
    assert(after.remove(cfg.tenant_id@) =~= tenants);
}

/// An acquire that was completed leaves a guest that the next acquire finds.
pub proof fn lemma_acquired_is_active(t: TenantState, vm_id: String, ip: String, now: Timestamp)
    ensures
        outcome_of(
            TenantState {
                last_request_at: Some(now),
                health_fail_count: 0,
                last_error: None,
                ..(TenantState {
                    status: VmStatus::Active,
                    vm_id: Some(vm_id),
                    guest_ip: Some(ip),
                    ..t
                })
            },
        ) == Some(Outcome::FastPath),
{
}

/// While a guest is being started or saved, its tenant is told to come back.
pub proof fn lemma_busy_tenant_waits(t: TenantState)
    ensures
        outcome_of(t) is None <==> t.status is Starting || t.status is Saving,
{
}

/// A tenant whose guest could not be started is started afresh when it is next
/// acquired, unless it has a snapshot.
pub proof fn lemma_failed_start_is_retried(
    before: Tenants,
    after: Tenants,
    id: Seq<char>,
    reason: Seq<char>,
)
    requires
        failed_with(before, after, id, reason),
    ensures
        outcome_of(after[id]) == Some(
            if before[id].save_path is Some {
                Outcome::Restore
            } else {
                Outcome::ColdCreate
            },
        ),
{
}

} // verus!
