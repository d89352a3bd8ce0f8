//! The controller's regular look at its tenants: guests that are idle give
//! memory back, and guests that stay idle are saved and stopped.
use vstd::prelude::*;

use crate::clone_client;
use crate::clone_client::{CallBody, CloneClient, DaemonCall, Method};
use crate::config::ControllerConfig;
use crate::controller;
use crate::controller::{AcquireTurn, ControllerState, Outcome, Tenants};
use crate::controller_metrics;
use crate::controller_metrics::{
    count_reclaim, refresh_status_counts, set_tenants_total, ControllerMetrics,
    ControllerMetricsView,
};
use crate::failure::Failure;
use crate::prom;
use crate::tenant::{TenantState, VmStatus};
use crate::text::cat2;
use crate::timestamp;
use crate::timestamp::Timestamp;

verus! {

/// How many tenants are in each status.
#[derive(Debug, Clone, Copy, PartialEq, Eq, Structural)]
pub struct StatusCounts {
    pub active: u64,
    pub soft: u64,
    pub saved: u64,
    /// Guests being started or saved.
    pub starting: u64,
    pub failed: u64,
    pub not_found: u64,
}

impl Default for StatusCounts {
    fn default() -> (c: Self)
        ensures
            c == (StatusCounts {
                active: 0,
                soft: 0,
                saved: 0,
                starting: 0,
                failed: 0,
                not_found: 0,
            }),
    {
        StatusCounts { active: 0, soft: 0, saved: 0, starting: 0, failed: 0, not_found: 0 }
    }
}

impl StatusCounts {
    /// All of them.
    pub open spec fn sum(self) -> int {
        self.active + self.soft + self.saved + self.starting + self.failed + self.not_found
    }

    /// One more in the status `s`.
    pub open spec fn plus(self, s: VmStatus) -> StatusCounts {
        match s {
            VmStatus::Active => StatusCounts { active: (self.active + 1) as u64, ..self },
            VmStatus::SoftReclaimed => StatusCounts { soft: (self.soft + 1) as u64, ..self },
            VmStatus::Saved => StatusCounts { saved: (self.saved + 1) as u64, ..self },
            VmStatus::Starting => StatusCounts { starting: (self.starting + 1) as u64, ..self },
            VmStatus::Saving => StatusCounts { starting: (self.starting + 1) as u64, ..self },
            VmStatus::Failed(_) => StatusCounts { failed: (self.failed + 1) as u64, ..self },
            VmStatus::NotFound => StatusCounts { not_found: (self.not_found + 1) as u64, ..self },
        }
    }

    /// Counts one more tenant.
    pub fn add(&mut self, s: &VmStatus)
        requires
            old(self).sum() < u64::MAX,
        ensures
            *final(self) == old(self).plus(*s),
            final(self).sum() == old(self).sum() + 1,
    {
        match s {
            VmStatus::Active => {
                self.active = self.active + 1;
            },
            VmStatus::SoftReclaimed => {
                self.soft = self.soft + 1;
            },
            VmStatus::Saved => {
                self.saved = self.saved + 1;
            },
            VmStatus::Starting | VmStatus::Saving => {
                self.starting = self.starting + 1;
            },
            VmStatus::Failed(_) => {
                self.failed = self.failed + 1;
            },
            VmStatus::NotFound => {
                self.not_found = self.not_found + 1;
            },
        }
    }

    /// All tenants.
    pub fn total(&self) -> (n: u64)
        requires
            self.sum() <= u64::MAX,
        ensures
            n == self.sum(),
    {
        self.active + self.soft + self.saved + self.starting + self.failed + self.not_found
    }
}

/// How many of the tenants with these ids are in each status.
pub open spec fn counts_of(tenants: Tenants, ids: Seq<Seq<char>>) -> StatusCounts
    decreases ids.len(),
{
    if ids.len() == 0 {
        StatusCounts { active: 0, soft: 0, saved: 0, starting: 0, failed: 0, not_found: 0 }
    } else {
        counts_of(tenants, ids.drop_last()).plus(tenants[ids.last()].status)
    }
}

/// The tenant's guest may have to give something back.
pub open spec fn needs_review(t: TenantState) -> bool {
    t.status is Active || t.status is SoftReclaimed
}

/// The ids whose tenants may have to give something back, in order.
pub open spec fn to_review(tenants: Tenants, ids: Seq<Seq<char>>) -> Seq<Seq<char>>
    decreases ids.len(),
{
    if ids.len() == 0 {
        seq![]
    } else if needs_review(tenants[ids.last()]) {
        to_review(tenants, ids.drop_last()).push(ids.last())
    } else {
        to_review(tenants, ids.drop_last())
    }
}

/// The tenant to be probed, by address and port, if it is.
pub open spec fn probe_of(t: TenantState, config: ControllerConfig) -> Option<(String, u16)> {
    if config.health_probe_enabled && t.guest_ip is Some && t.config.app_health_port is Some {
        Some((t.guest_ip->0, t.config.app_health_port->0))
    } else {
        None
    }
}

/// The address and port at which a tenant's guest is to be probed, if it is.
pub fn probe_target(t: &TenantState, config: &ControllerConfig) -> (r: Option<(String, u16)>)
    ensures
        r == probe_of(*t, *config),
{
    if !config.health_probe_enabled {
        return None;
    }
    match (&t.guest_ip, t.config.app_health_port) {
        (Some(ip), Some(port)) => Some((ip.clone(), port)),
        _ => None,
    }
}

/// The tenant after a probe, if there was one. A guest that answers counts as
/// used just now.
pub open spec fn after_probe(t: TenantState, probe: Option<bool>, now: Timestamp) -> TenantState {
    match probe {
        None => t,
        Some(true) => TenantState {
            last_request_at: Some(now),
            last_health_ok_at: Some(now),
            health_fail_count: 0,
            ..t
        },
        Some(false) => TenantState { health_fail_count: (t.health_fail_count + 1) as u32, ..t },
    }
}

/// For how many seconds the tenant has been idle: without end, if it was never
/// used.
pub open spec fn idle(t: TenantState, now: Timestamp) -> int {
    match t.last_request_at {
        Some(at) => timestamp::whole_seconds(at, now),
        None => i64::MAX as int,
    }
}

/// The tenant has been idle, or has not answered probes, for so long that its
/// guest is to be saved and stopped.
pub open spec fn hard_due(t: TenantState, now: Timestamp, config: ControllerConfig) -> bool {
    idle(t, now) >= config.hard_reclaim_after_secs || t.health_fail_count
        >= config.health_probe_fail_threshold
}

/// The tenant has been idle for so long that its guest is to give memory back.
pub open spec fn soft_due(t: TenantState, now: Timestamp, config: ControllerConfig) -> bool {
    t.status is Active && idle(t, now) >= config.soft_reclaim_after_secs
}

/// What a guest has to give back.
#[derive(Debug)]
pub enum Decision {
    /// Save the guest to this path, and stop it.
    Hard { vm_id: String, save_path: String },
    /// Have the guest drop its caches, and leave it so many megabytes.
    Soft { vm_id: String, target_mb: u32 },
    /// Note what the probe gave.
    Record,
    /// Nothing.
    Nothing,
}

/// Where a tenant's guest is saved: where it was saved before, or else in the
/// tenant's own directory.
pub open spec fn save_target(path: Seq<char>, t: TenantState, saves_root: Seq<char>, id: Seq<char>) -> bool {
    match t.save_path {
        Some(p) => path == p@,
        None => path == TenantState::save_dir(saves_root, id),
    }
}

/// What the guest of `t`, a tenant as it is after its probe, has to give back.
pub open spec fn decides(
    t: TenantState,
    id: Seq<char>,
    probe: Option<bool>,
    now: Timestamp,
    config: ControllerConfig,
    d: Decision,
) -> bool {
    if hard_due(t, now, config) && t.vm_id is Some {
        &&& d matches Decision::Hard { vm_id, save_path }
        &&& t.vm_id == Some(vm_id)
        &&& save_target(save_path@, t, config.saves_root@, id)
    } else if soft_due(t, now, config) && t.vm_id is Some {
        &&& d matches Decision::Soft { vm_id, target_mb }
        &&& t.vm_id == Some(vm_id)
        &&& target_mb == config.balloon_target_mb
    } else if t.health_fail_count > 0 || probe == Some(true) {
        d is Record
    } else {
        d is Nothing
    }
}

/// Decides what a tenant's guest has to give back, given what its probe gave, if
/// it was probed. The tenant comes back as it is after the probe.
pub fn review(
    t: TenantState,
    id: &str,
    probe: Option<bool>,
    now: Timestamp,
    config: &ControllerConfig,
) -> (r: (TenantState, Decision))
    requires
        probe == Some(false) ==> t.health_fail_count < u32::MAX,
    ensures
        r.0 == after_probe(t, probe, now),
        decides(r.0, id@, probe, now, *config, r.1),
{
    let mut t = t;
    match probe {
        Some(true) => {
            t.last_request_at = Some(now);
            t.last_health_ok_at = Some(now);
            t.health_fail_count = 0;
        },
        Some(false) => {
            t.health_fail_count = t.health_fail_count + 1;
        },
        None => {},
    }
    let idle_secs: i64 = match t.idle_secs(now) {
        Some(s) => s,
        None => i64::MAX,
    };
    let hard: bool = idle_secs >= config.hard_reclaim_after_secs as i64 || t.health_fail_count
        >= config.health_probe_fail_threshold;
    let active = match t.status {
        VmStatus::Active => true,
        _ => false,
    };
    let soft: bool = active && config.soft_reclaim_after_secs <= 0x7fff_ffff_ffff_ffff && idle_secs
        >= config.soft_reclaim_after_secs as i64;
    let decision = match &t.vm_id {
        Some(vm_id) => {
            if hard {
                let save_path = match &t.save_path {
                    Some(p) => p.clone(),
                    None => TenantState::default_save_path(config.saves_root.as_str(), id),
                };
                Decision::Hard { vm_id: vm_id.clone(), save_path }
            } else if soft {
                Decision::Soft { vm_id: vm_id.clone(), target_mb: config.balloon_target_mb }
            } else if t.health_fail_count > 0 || probe == Some(true) {
                Decision::Record
            } else {
                Decision::Nothing
            }
        },
        None => {
            if t.health_fail_count > 0 || probe == Some(true) {
                Decision::Record
            } else {
                Decision::Nothing
            }
        },
    };
    (t, decision)
}

/// The calls to the daemon that a decision takes. They are made one after the
/// other, and each is made whatever came of the ones before: a guest that could
/// not be saved is destroyed all the same. What matters is what came of saving
/// it.
pub fn reclaim_calls(d: &Decision, client: &CloneClient) -> (calls: Vec<DaemonCall>)
    ensures
        match *d {
            Decision::Hard { vm_id, save_path } => {
                &&& calls@.len() == 2
                &&& client.calls(
                    calls@[0],
                    Method::Post,
                    clone_client::vm_path(vm_id@, "/save"@),
                )
                &&& calls@[0].body matches CallBody::Save(req) && req.output_path@ == save_path@
                &&& client.calls(calls@[1], Method::Delete, clone_client::vm_path(vm_id@, ""@))
            },
            Decision::Soft { vm_id, target_mb } => {
                &&& calls@.len() == 2
                &&& client.calls(
                    calls@[0],
                    Method::Post,
                    clone_client::vm_path(vm_id@, "/exec"@),
                )
                &&& calls@[0].body matches CallBody::Exec(req) && req.command@ == "sh"@
                    && req.args@.map_values(|a: String| a@) == seq![
                    "-c"@,
                    clone_client::DROP_CACHES_COMMAND@,
                ]
                &&& client.calls(
                    calls@[1],
                    Method::Post,
                    clone_client::vm_path(vm_id@, "/balloon"@),
                )
                &&& calls@[1].body matches CallBody::Balloon(req) && req.target_mb == target_mb
            },
            _ => calls@.len() == 0,
        },
{
    let mut calls: Vec<DaemonCall> = Vec::new();
    match d {
        Decision::Hard { vm_id, save_path } => {
            calls.push(client.save_vm(vm_id.as_str(), save_path.as_str()));
            calls.push(client.destroy_vm(vm_id.as_str()));
        },
        Decision::Soft { vm_id, target_mb } => {
            calls.push(client.drop_caches(vm_id.as_str()));
            calls.push(client.balloon_vm(vm_id.as_str(), *target_mb));
        },
        _ => {},
    }
    calls
}

/// The tenant once its guest was saved.
pub open spec fn saved_tenant(t: TenantState, save_path: String) -> TenantState {
    TenantState {
        status: VmStatus::Saved,
        vm_id: None,
        guest_ip: None,
        save_path: Some(save_path),
        reclaim_count: (t.reclaim_count + 1) as u32,
        health_fail_count: 0,
        ..t
    }
}

/// The tenant once its guest could not be saved, for the reason given.
pub open spec fn unsaved_tenant(before: TenantState, after: TenantState, reason: Seq<char>) -> bool {
    &&& after.status matches VmStatus::Failed(message)
    &&& message@ == "save: "@ + reason
    &&& after.last_error is Some
    &&& after.last_error->0@ == reason
    &&& after == (TenantState {
        status: after.status,
        last_error: after.last_error,
        vm_id: None,
        guest_ip: None,
        ..before
    })
}

impl ControllerState {
    /// Takes stock of the tenants: sets the gauges, and gives the ids of those
    /// that may have to give something back.
    pub fn reconcile_cycle(&self, prom: &mut ControllerMetrics) -> (ids: Vec<String>)
        ensures
            ids@.map_values(|i: String| i@) == to_review(self.tenants@, self.tenants.keys()),
            counts_of(self.tenants@, self.tenants.keys()).sum() == self.tenants.keys().len(),
            self.tenants.keys().no_duplicates(),
            ({
                let c = counts_of(self.tenants@, self.tenants.keys());
                final(prom)@ == (ControllerMetricsView {
                    tenants_total: crate::server::as_gauge(self.tenants.keys().len()),
                    vms_by_status: controller_metrics::status_counts(
                        old(prom)@.vms_by_status,
                        c.active,
                        c.soft,
                        c.saved,
                        c.starting,
                        c.failed,
                        c.not_found,
                    ),
                    ..old(prom)@
                })
            }),
    {
        let mut counts = StatusCounts::default();
        let mut ids: Vec<String> = Vec::new();
        let n: usize = self.tenants.len();
        let ghost keys = self.tenants.keys();
        let mut i: usize = 0;
        assert(keys.take(0) =~= Seq::<Seq<char>>::empty());
        assert(ids@.map_values(|i: String| i@) =~= Seq::<Seq<char>>::empty());
        while i < n
            invariant
                i <= n == keys.len(),
                keys == self.tenants.keys(),
                counts == counts_of(self.tenants@, keys.take(i as int)),
                counts.sum() == i,
                ids@.map_values(|i: String| i@) == to_review(self.tenants@, keys.take(i as int)),
            decreases n - i,
        {
            proof {
                assert(keys.take(i as int + 1).drop_last() =~= keys.take(i as int));
                assert(keys.take(i as int + 1).last() == keys[i as int]);
            }
            let ghost before = ids@;
            let t = self.tenants.value_at(i);
            counts.add(&t.status);
            match t.status {
                VmStatus::Active | VmStatus::SoftReclaimed => {
                    ids.push(self.tenants.key_at(i).clone());
                    assert(ids@.map_values(|i: String| i@) =~= before.map_values(
                        |i: String| i@,
                    ).push(keys[i as int]));
                },
                _ => {},
            }
            i = i + 1;
        }
        assert(keys.take(i as int) =~= keys);
        let total: u64 = counts.total();
        set_tenants_total(
            prom,
            if total <= 0x7fff_ffff_ffff_ffff {
                total as i64
            } else {
                0x7fff_ffff_ffff_ffff
            },
        );
        refresh_status_counts(
            prom,
            counts.active,
            counts.soft,
            counts.saved,
            counts.starting,
            counts.failed,
            counts.not_found,
        );
        ids
    }

    /// Notes that a tenant's guest is being saved, so that the tenant is told to
    /// come back meanwhile.
    pub fn mark_saving(&mut self, id: &str)
        ensures
            final(self).config == old(self).config,
            controller::consistent(old(self).tenants@) ==> controller::consistent(
                final(self).tenants@,
            ),
            final(self).tenants@ == (if old(self).tenants@.dom().contains(id@) {
                old(self).tenants@.insert(
                    id@,
                    TenantState { status: VmStatus::Saving, ..old(self).tenants@[id@] },
                )
            } else {
                old(self).tenants@
            }),
    {
        if let Some(t) = self.tenants.get_mut(id) {
            t.status = VmStatus::Saving;
        }
    }

    /// Notes that a tenant's guest was saved to `save_path` and stopped, or that
    /// it could not be saved and was stopped all the same. `t` is the tenant as
    /// it was reviewed. A tenant that was deleted meanwhile stays deleted.
    pub fn finish_hard(
        &mut self,
        id: &str,
        t: TenantState,
        save_path: String,
        result: Result<(), Failure>,
        prom: &mut ControllerMetrics,
    )
        requires
            result is Ok ==> t.reclaim_count < u32::MAX,
        ensures
            final(self).config == old(self).config,
            controller::consistent(old(self).tenants@) && t.config.tenant_id@ == id@
                ==> controller::consistent(final(self).tenants@),
            final(self).tenants@.dom() == old(self).tenants@.dom(),
            !old(self).tenants@.dom().contains(id@) ==> final(self).tenants@ == old(self).tenants@,
            old(self).tenants@.dom().contains(id@) ==> final(self).tenants@ == old(
                self,
            ).tenants@.insert(id@, final(self).tenants@[id@]),
            old(self).tenants@.dom().contains(id@) ==> (match result {
                Ok(_) => final(self).tenants@[id@] == saved_tenant(t, save_path),
                Err(e) => unsaved_tenant(old(self).tenants@[id@], final(self).tenants@[id@], e@[0]),
            }),
            final(prom)@ == (ControllerMetricsView {
                reclaim_total: prom::counted(
                    old(prom)@.reclaim_total,
                    seq![
                        if result is Ok {
                            "hard"@
                        } else {
                            "hard_error"@
                        },
                    ],
                ),
                ..old(prom)@
            }),
    {
        let ghost before = self.tenants@;
        match result {
            Ok(_) => {
                if let Some(st) = self.tenants.get_mut(id) {
                    *st = TenantState {
                        status: VmStatus::Saved,
                        vm_id: None,
                        guest_ip: None,
                        save_path: Some(save_path),
                        reclaim_count: t.reclaim_count + 1,
                        health_fail_count: 0,
                        config: t.config,
                        last_request_at: t.last_request_at,
                        last_health_ok_at: t.last_health_ok_at,
                        created_at: t.created_at,
                        last_error: t.last_error,
                    };
                }
                count_reclaim(prom, "hard");
            },
            Err(e) => {
                let reason = e.message();
                if let Some(st) = self.tenants.get_mut(id) {
                    st.status = VmStatus::Failed(cat2("save: ", reason.as_str()));
                    st.last_error = Some(reason);
                    st.vm_id = None;
                    st.guest_ip = None;
                }
                count_reclaim(prom, "hard_error");
            },
        }
        assert(self.tenants@.dom() =~= before.dom());
    }

    /// Notes that a tenant's guest has given memory back. `t` is the tenant as it
    /// was reviewed.
    pub fn finish_soft(&mut self, id: &str, t: TenantState, prom: &mut ControllerMetrics)
        requires
            t.reclaim_count < u32::MAX,
        ensures
            final(self).config == old(self).config,
            controller::consistent(old(self).tenants@) && t.config.tenant_id@ == id@
                && controller::sound(reclaimed_tenant(t)) ==> controller::consistent(
                final(self).tenants@,
            ),
            final(self).tenants@ == (if old(self).tenants@.dom().contains(id@) {
                old(self).tenants@.insert(id@, reclaimed_tenant(t))
            } else {
                old(self).tenants@
            }),
            final(prom)@ == (ControllerMetricsView {
                reclaim_total: prom::counted(old(prom)@.reclaim_total, seq!["soft"@]),
                ..old(prom)@
            }),
    {
        if let Some(st) = self.tenants.get_mut(id) {
            *st = TenantState {
                status: VmStatus::SoftReclaimed,
                reclaim_count: t.reclaim_count + 1,
                config: t.config,
                vm_id: t.vm_id,
                guest_ip: t.guest_ip,
                save_path: t.save_path,
                last_request_at: t.last_request_at,
                last_health_ok_at: t.last_health_ok_at,
                health_fail_count: t.health_fail_count,
                created_at: t.created_at,
                last_error: t.last_error,
            };
        }
        count_reclaim(prom, "soft");
    }

    /// Notes what a tenant's probe gave. `t` is the tenant as it was reviewed: one
    /// whose guest answered counts as used at that time. What came in between is
    /// not lost where it did not answer.
    pub fn record_probe(&mut self, id: &str, t: &TenantState)
        ensures
            final(self).config == old(self).config,
            controller::consistent(old(self).tenants@) ==> controller::consistent(
                final(self).tenants@,
            ),
            final(self).tenants@ == (if old(self).tenants@.dom().contains(id@) {
                old(self).tenants@.insert(id@, recorded_tenant(old(self).tenants@[id@], *t))
            } else {
                old(self).tenants@
            }),
    {
        if let Some(st) = self.tenants.get_mut(id) {
            if t.health_fail_count == 0 {
                st.last_request_at = t.last_request_at;
            }
            st.health_fail_count = t.health_fail_count;
            st.last_health_ok_at = t.last_health_ok_at;
        }
    }
}

/// The tenant once its guest has given memory back.
pub open spec fn reclaimed_tenant(t: TenantState) -> TenantState {
    TenantState {
        status: VmStatus::SoftReclaimed,
        reclaim_count: (t.reclaim_count + 1) as u32,
        ..t
    }
}

/// The stored tenant once the probe of its reviewed copy `t` was noted. A guest
/// that answered was used at that time; where it did not, the stored time of its
/// last use stands.
pub open spec fn recorded_tenant(stored: TenantState, t: TenantState) -> TenantState {
    TenantState {
        last_request_at: if t.health_fail_count == 0 {
            t.last_request_at
        } else {
            stored.last_request_at
        },
        health_fail_count: t.health_fail_count,
        last_health_ok_at: t.last_health_ok_at,
        ..stored
    }
}

/// A guest that answers is as good as used: the stored tenant is idle from the
/// time of the probe on, and failures before it no longer count.
pub proof fn lemma_answer_is_recorded(stored: TenantState, t: TenantState, at: Timestamp)
    ensures
        ({
            let after = recorded_tenant(stored, after_probe(t, Some(true), at));
            &&& after.last_request_at == Some(at)
            &&& after.last_health_ok_at == Some(at)
            &&& after.health_fail_count == 0
            &&& after.status == stored.status
            &&& after.vm_id == stored.vm_id
        }),
{
}

/// A failed probe does not touch when a tenant was last used, so that an acquire
/// or release that came during the probe stands.
pub proof fn lemma_failed_probe_keeps_last_use(
    stored: TenantState,
    t: TenantState,
    now: Timestamp,
)
    requires
        t.health_fail_count < u32::MAX,
    ensures
        ({
            let after = recorded_tenant(stored, after_probe(t, Some(false), now));
            &&& after.last_request_at == stored.last_request_at
            &&& after.last_health_ok_at == t.last_health_ok_at
            &&& after.health_fail_count == t.health_fail_count + 1
        }),
{
}

/// Only failures in a row count: a guest that answered at `at` and fails its next
/// probe before the idle thresholds have passed since is left alone, as long as
/// more than one failure is allowed.
pub proof fn lemma_one_failed_probe_is_forgiven(
    stored: TenantState,
    t: TenantState,
    id: Seq<char>,
    at: Timestamp,
    now: Timestamp,
    config: ControllerConfig,
    d: Decision,
)
    requires
        config.health_probe_fail_threshold > 1,
        timestamp::whole_seconds(at, now) < config.hard_reclaim_after_secs,
        timestamp::whole_seconds(at, now) < config.soft_reclaim_after_secs,
        decides(
            after_probe(recorded_tenant(stored, after_probe(t, Some(true), at)), Some(false), now),
            id,
            Some(false),
            now,
            config,
            d,
        ),
    ensures
        d is Record,
{
}

/// A guest that was saved is restored from where it was saved when its tenant is
/// next acquired.
pub proof fn lemma_saved_is_restored(t: TenantState, save_path: String)
    ensures
        controller::outcome_of(saved_tenant(t, save_path)) == Some(Outcome::Restore),
        saved_tenant(t, save_path).save_path == Some(save_path),
        saved_tenant(t, save_path).vm_id is None,
        saved_tenant(t, save_path).config == t.config,
{
}

/// A guest that gave memory back is still there, and gets it back when its
/// tenant is next acquired.
pub proof fn lemma_reclaimed_is_recovered(t: TenantState)
    ensures
        controller::outcome_of(reclaimed_tenant(t)) == Some(Outcome::Recover),
        reclaimed_tenant(t).vm_id == t.vm_id,
        reclaimed_tenant(t).guest_ip == t.guest_ip,
{
}

/// A tenant whose guest could not be saved, and never was before, gets a new one
/// when it is next acquired.
pub proof fn lemma_unsaved_starts_afresh(before: TenantState, after: TenantState, reason: Seq<char>)
    requires
        unsaved_tenant(before, after, reason),
        before.save_path is None,
    ensures
        controller::outcome_of(after) == Some(Outcome::ColdCreate),
        after.vm_id is None,
{
}

/// A save that fails is followed by a cold start. A tenant got its guest by a new
/// start (`s0` to `s3`), was reclaimed, and its guest could not be saved (`s4`,
/// `s5`): the next acquire starts a new guest, restores none, and is answered as a
/// cold start.
pub proof fn lemma_failed_save_retries_cold(
    s0: Tenants,
    s1: Tenants,
    s2: Tenants,
    s3: Tenants,
    s4: Tenants,
    s5: Tenants,
    s6: Tenants,
    id: Seq<char>,
    first: AcquireTurn,
    vm_id: String,
    ip: String,
    at: Timestamp,
    reason: Seq<char>,
    outcome: Outcome,
    turn: AcquireTurn,
)
    requires
        controller::consistent(s0),
        s0.dom().contains(id),
        controller::outcome_of(s0[id]) == Some(Outcome::ColdCreate),
        controller::acquire_begun(s0, s1, id, Outcome::ColdCreate, first),
        s2 == s1.insert(
            id,
            TenantState {
                status: VmStatus::Active,
                vm_id: Some(vm_id),
                guest_ip: Some(ip),
                ..s1[id]
            },
        ),
        s3 == s2.insert(
            id,
            TenantState {
                last_request_at: Some(at),
                health_fail_count: 0,
                last_error: None,
                ..s2[id]
            },
        ),
        s4 == s3.insert(id, TenantState { status: VmStatus::Saving, ..s3[id] }),
        s5 == s4.insert(id, s5[id]),
        unsaved_tenant(s4[id], s5[id], reason),
        controller::outcome_of(s5[id]) == Some(outcome),
        controller::acquire_begun(s5, s6, id, outcome, turn),
    ensures
        outcome == Outcome::ColdCreate,
        outcome.word() == "cold_create"@,
        turn matches AcquireTurn::CheckOverlay(start) && controller::starts(start, s0[id].config),
{
}

/// What a tenant's guest has to give back is taken from a guest that is there: a
/// tenant that has what its status promises, and is due, is saved or gives memory
/// back, and has what its new status promises afterwards.
pub proof fn lemma_due_guest_gives_back(
    t: TenantState,
    id: Seq<char>,
    probe: Option<bool>,
    now: Timestamp,
    config: ControllerConfig,
    d: Decision,
    save_path: String,
)
    requires
        controller::sound(t),
        needs_review(t),
        decides(t, id, probe, now, config, d),
    ensures
        hard_due(t, now, config) <==> d is Hard,
        !hard_due(t, now, config) && soft_due(t, now, config) <==> d is Soft,
        controller::sound(saved_tenant(t, save_path)),
        controller::sound(reclaimed_tenant(t)),
{
}

/// A guest that answers its probe is left alone, as long as the thresholds are
/// not zero.
pub proof fn lemma_answering_guest_is_left_alone(
    t: TenantState,
    id: Seq<char>,
    now: Timestamp,
    config: ControllerConfig,
    d: Decision,
)
    requires
        decides(after_probe(t, Some(true), now), id, Some(true), now, config, d),
        config.hard_reclaim_after_secs > 0,
        config.health_probe_fail_threshold > 0,
        config.soft_reclaim_after_secs > 0,
    ensures
        d is Record,
{
}

/// What saves a guest does not depend on whether it gave memory back before: a
/// guest that is idle for long enough is saved in either state.
pub proof fn lemma_idle_guest_is_saved(
    t: TenantState,
    id: Seq<char>,
    now: Timestamp,
    config: ControllerConfig,
    d: Decision,
)
    requires
        decides(t, id, None, now, config, d),
        t.vm_id is Some,
        idle(t, now) >= config.hard_reclaim_after_secs,
    ensures
        d is Hard,
{
}

} // verus!
