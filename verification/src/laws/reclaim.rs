//! The controller's regular look at its tenants.
use vstd::prelude::*;

use crate::clone_client::{CallBody, CloneClient, DaemonCall, Method};
use crate::config::ControllerConfig;
use crate::controller;
use crate::controller::{AcquireTurn, ControllerState, Outcome, Tenants};
use crate::controller_metrics::ControllerMetrics;
use crate::failure::Failure;
use crate::http::ApiError;
use crate::prom;
use crate::reconciler;
use crate::reconciler::{probe_target, reclaim_calls, review, Decision};
use crate::tenant::{TenantState, VmStatus};
use crate::timestamp::Timestamp;

verus! {

/// The nanoseconds from one time to the other.
pub open spec fn nanos_between(from: Timestamp, to: Timestamp) -> int {
    (to.secs * 1_000_000_000 + to.nanos) - (from.secs * 1_000_000_000 + from.nanos)
}

/// The tenant was not used for so many seconds, or never.
pub open spec fn unused_for(t: TenantState, now: Timestamp, secs: int) -> bool {
    match t.last_request_at {
        Some(at) => secs <= 0 || nanos_between(at, now) >= secs * 1_000_000_000,
        None => true,
    }
}

proof fn lemma_idle(t: TenantState, now: Timestamp, secs: int)
    requires
        secs <= i64::MAX,
    ensures
        reconciler::idle(t, now) >= secs <==> unused_for(t, now, secs),
{
    if let Some(at) = t.last_request_at {
        let d = nanos_between(at, now);
        assert(secs > 0 ==> (d / 1_000_000_000 >= secs <==> d >= secs * 1_000_000_000))
            by (nonlinear_arith);
    }
}

/// A guest that fails so many probes in a row as the threshold says is saved and
/// stopped, whether it is active or gave memory back before. The probe that just
/// failed counts.
pub proof fn lemma_unanswering_guest_is_saved(
    t: TenantState,
    id: &str,
    probe: Option<bool>,
    now: Timestamp,
    config: &ControllerConfig,
    r: (TenantState, Decision),
)
    requires
        call_ensures(review, (t, id, probe, now, config), r),
        t.status is Active || t.status is SoftReclaimed,
        t.vm_id is Some,
        probe == Some(false) ==> t.health_fail_count < u32::MAX && t.health_fail_count + 1
            >= config.health_probe_fail_threshold,
        probe is None ==> t.health_fail_count >= config.health_probe_fail_threshold,
        probe != Some(true),
    ensures
        r.1 matches Decision::Hard { vm_id, save_path } && Some(vm_id) == t.vm_id && (
        t.save_path is Some ==> save_path@ == t.save_path->0@) && (t.save_path is None
            ==> save_path@ == config.saves_root@ + "/"@ + id@),
{
}

/// A guest that was not used for so long as the configuration says is saved and
/// stopped, whether it is active or gave memory back before: where it was saved
/// before, or else in the tenant's own directory.
pub proof fn lemma_unused_guest_is_saved(
    t: TenantState,
    id: &str,
    probe: Option<bool>,
    now: Timestamp,
    config: &ControllerConfig,
    r: (TenantState, Decision),
)
    requires
        call_ensures(review, (t, id, probe, now, config), r),
        t.status is Active || t.status is SoftReclaimed,
        t.vm_id is Some,
        probe != Some(true),
        unused_for(t, now, config.hard_reclaim_after_secs as int),
    ensures
        r.1 matches Decision::Hard { vm_id, save_path } && Some(vm_id) == t.vm_id && (
        t.save_path is Some ==> save_path@ == t.save_path->0@) && (t.save_path is None
            ==> save_path@ == config.saves_root@ + "/"@ + id@),
{
    lemma_idle(t, now, config.hard_reclaim_after_secs as int);
}

/// A guest is saved for these two reasons only. One that is in use and answers, or
/// is not probed, keeps running.
pub proof fn lemma_used_guest_keeps_running(
    t: TenantState,
    id: &str,
    probe: Option<bool>,
    now: Timestamp,
    config: &ControllerConfig,
    r: (TenantState, Decision),
)
    requires
        call_ensures(review, (t, id, probe, now, config), r),
        probe != Some(true) ==> !unused_for(t, now, config.hard_reclaim_after_secs as int),
        probe is None ==> t.health_fail_count < config.health_probe_fail_threshold,
        probe == Some(false) ==> t.health_fail_count + 1 < config.health_probe_fail_threshold,
        probe == Some(true) ==> config.hard_reclaim_after_secs > 0
            && config.health_probe_fail_threshold > 0,
    ensures
        !(r.1 is Hard),
{
    lemma_idle(t, now, config.hard_reclaim_after_secs as int);
    lemma_idle(r.0, now, config.hard_reclaim_after_secs as int);
}

/// An active guest that is not due to be saved, but was not used for the shorter
/// time, gives memory back: it keeps the megabytes that the configuration says. One
/// that did so already is not asked again, and one that is in use is not asked. A
/// time that no clock can count never passes.
pub proof fn lemma_idle_guest_gives_memory_back(
    t: TenantState,
    id: &str,
    probe: Option<bool>,
    now: Timestamp,
    config: &ControllerConfig,
    r: (TenantState, Decision),
)
    requires
        call_ensures(review, (t, id, probe, now, config), r),
        probe != Some(true),
        !(r.1 is Hard),
    ensures
        config.soft_reclaim_after_secs <= i64::MAX ==> (r.1 is Soft <==> t.status is Active
            && t.vm_id is Some && unused_for(t, now, config.soft_reclaim_after_secs as int)),
        config.soft_reclaim_after_secs > i64::MAX ==> !(r.1 is Soft),
        r.1 matches Decision::Soft { vm_id, target_mb } ==> Some(vm_id) == t.vm_id && target_mb
            == config.balloon_target_mb,
{
    if config.soft_reclaim_after_secs <= i64::MAX {
        lemma_idle(t, now, config.soft_reclaim_after_secs as int);
    }
}

/// A tenant without a guest has nothing to give back.
pub proof fn lemma_no_guest_gives_nothing(
    t: TenantState,
    id: &str,
    probe: Option<bool>,
    now: Timestamp,
    config: &ControllerConfig,
    r: (TenantState, Decision),
)
    requires
        call_ensures(review, (t, id, probe, now, config), r),
        t.vm_id is None,
    ensures
        r.1 is Record || r.1 is Nothing,
{
}

/// A probe changes what is known of the guest's health, and of its last use where
/// it answered, and nothing else of the tenant. A failure counts one more, and an
/// answer makes the count zero.
pub proof fn lemma_probe_counts(
    t: TenantState,
    id: &str,
    probe: Option<bool>,
    now: Timestamp,
    config: &ControllerConfig,
    r: (TenantState, Decision),
)
    requires
        call_ensures(review, (t, id, probe, now, config), r),
        probe == Some(false) ==> t.health_fail_count < u32::MAX,
    ensures
        probe is None ==> r.0 == t,
        probe == Some(true) ==> r.0.health_fail_count == 0 && r.0.last_request_at == Some(now)
            && r.0.last_health_ok_at == Some(now),
        probe == Some(false) ==> r.0.health_fail_count == t.health_fail_count + 1
            && r.0.last_request_at == t.last_request_at && r.0.last_health_ok_at
            == t.last_health_ok_at,
        r.0.config == t.config,
        r.0.status == t.status,
        r.0.vm_id == t.vm_id,
        r.0.guest_ip == t.guest_ip,
        r.0.save_path == t.save_path,
        r.0.created_at == t.created_at,
        r.0.reclaim_count == t.reclaim_count,
        r.0.last_error == t.last_error,
        r.1 is Nothing ==> probe != Some(true) && r.0.health_fail_count == 0,
        r.1 is Record ==> probe == Some(true) || r.0.health_fail_count > 0,
{
}

/// Failures add up over the looks at a tenant: what one look noted is where the
/// next one goes on from, so that as many failures in a row as the threshold says
/// save the guest, also if it gave memory back on the way.
pub proof fn lemma_failures_add_up(
    s: &mut ControllerState,
    id: &str,
    t0: Timestamp,
    t1: Timestamp,
    config: &ControllerConfig,
    first: (TenantState, Decision),
    prom: &mut ControllerMetrics,
    second: (TenantState, Decision),
)
    requires
        old(s).tenants@.dom().contains(id@),
        old(s).tenants@[id@].status is Active || old(s).tenants@[id@].status is SoftReclaimed,
        old(s).tenants@[id@].vm_id is Some,
        old(s).tenants@[id@].health_fail_count < u32::MAX - 1,
        old(s).tenants@[id@].health_fail_count + 2 >= config.health_probe_fail_threshold,
        call_ensures(review, (old(s).tenants@[id@], id, Some(false), t0, config), first),
        first.1 is Record ==> call_ensures(ControllerState::record_probe, (s, id, &first.0), ()),
        first.1 is Soft ==> call_ensures(ControllerState::finish_soft, (s, id, first.0, prom), ()),
        !(first.1 is Hard) ==> call_ensures(
            review,
            (final(s).tenants@[id@], id, Some(false), t1, config),
            second,
        ),
    ensures
        first.1 is Hard || first.1 is Soft || first.1 is Record,
        first.1 is Hard || second.1 is Hard,
{
}

/// Probes are made where they are switched on, of a guest whose address is known, on
/// the port that the tenant registered.
pub proof fn lemma_probe_goes_to_the_guest(
    t: &TenantState,
    config: &ControllerConfig,
    r: Option<(String, u16)>,
)
    requires
        call_ensures(probe_target, (t, config), r),
    ensures
        r is Some <==> config.health_probe_enabled && t.guest_ip is Some
            && t.config.app_health_port is Some,
        r matches Some((ip, port)) ==> Some(ip) == t.guest_ip && Some(port)
            == t.config.app_health_port,
{
}

/// What a decision takes. A guest that is to be stopped is saved to its path first
/// and destroyed then; one that is to give memory back drops its caches first and
/// gets its balloon then. Nothing else calls the daemon.
pub proof fn lemma_decision_is_carried_out(
    d: &Decision,
    client: &CloneClient,
    calls: Vec<DaemonCall>,
)
    requires
        call_ensures(reclaim_calls, (d, client), calls),
    ensures
        *d matches Decision::Hard { vm_id, save_path } ==> {
            &&& calls@.len() == 2
            &&& calls@[0].method == Method::Post
            &&& calls@[0].url@ == client.base() + ("/v1/vms/"@ + vm_id@ + "/save"@)
            &&& calls@[0].body matches CallBody::Save(req) && req.output_path@ == save_path@
            &&& calls@[1].method == Method::Delete
            &&& calls@[1].url@ == client.base() + ("/v1/vms/"@ + vm_id@ + ""@)
        },
        *d matches Decision::Soft { vm_id, target_mb } ==> {
            &&& calls@.len() == 2
            &&& calls@[0].method == Method::Post
            &&& calls@[0].url@ == client.base() + ("/v1/vms/"@ + vm_id@ + "/exec"@)
            &&& calls@[0].body matches CallBody::Exec(req) && req.command@ == "sh"@
                && req.args@.len() == 2 && req.args@[0]@ == "-c"@ && req.args@[1]@
                == "echo 3 > /proc/sys/vm/drop_caches"@
            &&& calls@[1].method == Method::Post
            &&& calls@[1].url@ == client.base() + ("/v1/vms/"@ + vm_id@ + "/balloon"@)
            &&& calls@[1].body matches CallBody::Balloon(req) && req.target_mb == target_mb
        },
        *d is Record || *d is Nothing ==> calls@.len() == 0,
        forall|i: int| 0 <= i < calls@.len() ==> (#[trigger] calls@[i]).bearer == client.token(),
{
    if *d is Soft {
        let args = calls@[0].body->Exec_0.args@;
        let words = args.map_values(|a: String| a@);
        assert(words.len() == args.len());
        assert(words[0] == args[0]@ && words[1] == args[1]@);
    }
}

/// A guest that was saved is restored from just that snapshot when its tenant is
/// next acquired, with the network, shared directory and memory limit it had. No
/// other tenant is touched.
pub proof fn lemma_saved_guest_comes_back(
    s: &mut ControllerState,
    id: &str,
    t: TenantState,
    save_path: String,
    prom: &mut ControllerMetrics,
    next: &mut ControllerState,
    r: Result<(Outcome, AcquireTurn), ApiError>,
    other: Seq<char>,
)
    requires
        old(s).tenants@.dom().contains(id@),
        t.reclaim_count < u32::MAX,
        call_ensures(
            ControllerState::finish_hard,
            (s, id, t, save_path, Ok::<(), Failure>(()), prom),
            (),
        ),
        *final(s) == *old(next),
        call_ensures(ControllerState::acquire, (next, id), r),
        other != id@,
    ensures
        ({
            let saved = final(s).tenants@[id@];
            &&& saved.status is Saved
            &&& saved.save_path == Some(save_path)
            &&& saved.vm_id is None
            &&& saved.guest_ip is None
            &&& saved.reclaim_count == t.reclaim_count + 1
            &&& saved.health_fail_count == 0
            &&& saved.config == t.config
            &&& saved.last_request_at == t.last_request_at
            &&& saved.last_health_ok_at == t.last_health_ok_at
            &&& saved.created_at == t.created_at
            &&& saved.last_error == t.last_error
        }),
        r matches Ok((outcome, turn)) && outcome == Outcome::Restore && (
        turn matches AcquireTurn::Restore { request } && request.snapshot_path == save_path
            && request.net == Some(true) && request.shared_dir == t.config.shared_dir
            && request.memory_limit_mb == t.config.memory_limit_mb),
        final(s).tenants@.dom() == old(s).tenants@.dom(),
        old(s).tenants@.dom().contains(other) ==> final(s).tenants@[other] == old(s).tenants@[other],
        prom::value_in(old(prom)@.reclaim_total, seq!["hard"@]) < u64::MAX ==> prom::value_in(
            final(prom)@.reclaim_total,
            seq!["hard"@],
        ) == prom::value_in(old(prom)@.reclaim_total, seq!["hard"@]) + 1,
        final(prom)@.acquire_errors == old(prom)@.acquire_errors,
{
}

/// A guest that could not be saved is gone all the same. Its tenant has failed, for
/// the reason given, and gets a new guest when it is next acquired, or the one that
/// was saved before.
pub proof fn lemma_unsaved_guest_is_replaced(
    s: &mut ControllerState,
    id: &str,
    t: TenantState,
    save_path: String,
    e: Failure,
    prom: &mut ControllerMetrics,
    next: &mut ControllerState,
    r: Result<(Outcome, AcquireTurn), ApiError>,
    other: Seq<char>,
)
    requires
        old(s).tenants@.dom().contains(id@),
        call_ensures(
            ControllerState::finish_hard,
            (s, id, t, save_path, Err::<(), Failure>(e), prom),
            (),
        ),
        *final(s) == *old(next),
        call_ensures(ControllerState::acquire, (next, id), r),
        other != id@,
    ensures
        ({
            let failed = final(s).tenants@[id@];
            let before = old(s).tenants@[id@];
            &&& failed.status matches VmStatus::Failed(m) && m@ == "save: "@ + e@[0]
            &&& failed.last_error is Some && failed.last_error->0@ == e@[0]
            &&& failed.vm_id is None
            &&& failed.guest_ip is None
            &&& failed.save_path == before.save_path
            &&& failed.config == before.config
            &&& failed.reclaim_count == before.reclaim_count
            &&& failed.health_fail_count == before.health_fail_count
            &&& failed.last_request_at == before.last_request_at
            &&& failed.created_at == before.created_at
            &&& before.save_path is None ==> (r matches Ok((outcome, turn)) && outcome
                == Outcome::ColdCreate && turn is CheckOverlay)
            &&& before.save_path is Some ==> (r matches Ok((outcome, turn)) && outcome
                == Outcome::Restore && (turn matches AcquireTurn::Restore { request }
                && request.snapshot_path == before.save_path->0))
        }),
        final(s).tenants@.dom() == old(s).tenants@.dom(),
        old(s).tenants@.dom().contains(other) ==> final(s).tenants@[other] == old(s).tenants@[other],
        prom::value_in(old(prom)@.reclaim_total, seq!["hard_error"@]) < u64::MAX ==> prom::value_in(
            final(prom)@.reclaim_total,
            seq!["hard_error"@],
        ) == prom::value_in(old(prom)@.reclaim_total, seq!["hard_error"@]) + 1,
{
}

/// A guest that gave memory back is still there, and gets all of its memory back
/// when its tenant is next acquired; then it serves again. No other tenant is
/// touched.
pub proof fn lemma_reclaimed_guest_recovers(
    s: &mut ControllerState,
    id: &str,
    t: TenantState,
    prom: &mut ControllerMetrics,
    next: &mut ControllerState,
    r: Result<(Outcome, AcquireTurn), ApiError>,
    done: &mut ControllerState,
    other: Seq<char>,
)
    requires
        old(s).tenants@.dom().contains(id@),
        t.vm_id is Some,
        t.reclaim_count < u32::MAX,
        call_ensures(ControllerState::finish_soft, (s, id, t, prom), ()),
        *final(s) == *old(next),
        call_ensures(ControllerState::acquire, (next, id), r),
        *final(next) == *old(done),
        call_ensures(ControllerState::finish_recover, (done, id), ()),
        other != id@,
    ensures
        ({
            let soft = final(s).tenants@[id@];
            &&& soft.status is SoftReclaimed
            &&& soft.vm_id == t.vm_id
            &&& soft.guest_ip == t.guest_ip
            &&& soft.save_path == t.save_path
            &&& soft.reclaim_count == t.reclaim_count + 1
            &&& soft.health_fail_count == t.health_fail_count
            &&& soft.last_request_at == t.last_request_at
            &&& soft.last_health_ok_at == t.last_health_ok_at
            &&& soft.created_at == t.created_at
            &&& soft.last_error == t.last_error
            &&& soft.config == t.config
        }),
        r matches Ok((outcome, turn)) && outcome == Outcome::Recover && (
        turn matches AcquireTurn::Balloon { vm_id, target_mb } && Some(vm_id) == t.vm_id
            && target_mb == t.config.mem_mb),
        final(done).tenants@[id@].status is Active,
        final(done).tenants@[id@].vm_id == t.vm_id,
        final(done).tenants@[id@].guest_ip == t.guest_ip,
        final(done).tenants@.dom() =~= old(s).tenants@.dom(),
        old(s).tenants@.dom().contains(other) ==> final(done).tenants@[other]
            == old(s).tenants@[other],
        prom::value_in(old(prom)@.reclaim_total, seq!["soft"@]) < u64::MAX ==> prom::value_in(
            final(prom)@.reclaim_total,
            seq!["soft"@],
        ) == prom::value_in(old(prom)@.reclaim_total, seq!["soft"@]) + 1,
{
}

/// While its guest is being saved a tenant is told to come back, and nothing
/// changes.
pub proof fn lemma_saving_tenant_waits(
    s: &mut ControllerState,
    id: &str,
    next: &mut ControllerState,
    r: Result<(Outcome, AcquireTurn), ApiError>,
    other: Seq<char>,
)
    requires
        old(s).tenants@.dom().contains(id@),
        call_ensures(ControllerState::mark_saving, (s, id), ()),
        *final(s) == *old(next),
        call_ensures(ControllerState::acquire, (next, id), r),
        other != id@,
    ensures
        final(s).tenants@[id@].status is Saving,
        final(s).tenants@[id@].vm_id == old(s).tenants@[id@].vm_id,
        final(s).tenants@[id@].save_path == old(s).tenants@[id@].save_path,
        final(s).tenants@[id@].config == old(s).tenants@[id@].config,
        r is Err,
        r->Err_0.status == 503,
        r->Err_0.message@ == "tenant "@ + id@ + " is "@ + "saving"@ + ", retry later"@,
        final(next).tenants@ == final(s).tenants@,
        old(s).tenants@.dom().contains(other) ==> final(s).tenants@[other] == old(s).tenants@[other],
{
}

/// What a look found is noted with the tenant that was looked at, and with no
/// other. An answer counts as a use; after a failure the last use stands as it is.
/// A tenant that was deleted meanwhile stays deleted.
pub proof fn lemma_probe_is_noted(
    s: &mut ControllerState,
    id: &str,
    t: TenantState,
    probe: bool,
    now: Timestamp,
    config: &ControllerConfig,
    r: (TenantState, Decision),
    other: Seq<char>,
)
    requires
        call_ensures(review, (t, id, Some(probe), now, config), r),
        !probe ==> t.health_fail_count < u32::MAX,
        call_ensures(ControllerState::record_probe, (s, id, &r.0), ()),
        other != id@,
    ensures
        final(s).tenants@.dom() =~= old(s).tenants@.dom(),
        old(s).tenants@.dom().contains(other) ==> final(s).tenants@[other] == old(s).tenants@[other],
        old(s).tenants@.dom().contains(id@) ==> {
            let before = old(s).tenants@[id@];
            let after = final(s).tenants@[id@];
            &&& probe ==> after.last_request_at == Some(now) && after.last_health_ok_at == Some(now)
                && after.health_fail_count == 0
            &&& !probe ==> after.last_request_at == before.last_request_at
                && after.health_fail_count == t.health_fail_count + 1
            &&& after.status == before.status
            &&& after.vm_id == before.vm_id
            &&& after.guest_ip == before.guest_ip
            &&& after.save_path == before.save_path
            &&& after.config == before.config
            &&& after.reclaim_count == before.reclaim_count
            &&& after.last_error == before.last_error
        },
{
}

proof fn lemma_to_review(tenants: Tenants, ids: Seq<Seq<char>>, id: Seq<char>)
    ensures
        reconciler::to_review(tenants, ids).contains(id) <==> ids.contains(id) && (
        tenants[id].status is Active || tenants[id].status is SoftReclaimed),
        ids.no_duplicates() ==> reconciler::to_review(tenants, ids).no_duplicates(),
    decreases ids.len(),
{
    let all = reconciler::to_review(tenants, ids);
    if ids.len() > 0 {
        let most = ids.drop_last();
        let some = reconciler::to_review(tenants, most);
        let last = ids.last();
        lemma_to_review(tenants, most, id);
        lemma_to_review(tenants, most, last);
        if ids.contains(id) {
            let i = ids.index_of(id);
            if i < most.len() {
                assert(most[i] == id);
            }
        }
        if most.contains(id) {
            let i = most.index_of(id);
            assert(ids[i] == id);
        }
        if reconciler::needs_review(tenants[last]) {
            assert(all[all.len() - 1] == last);
            if some.contains(id) {
                let k = some.index_of(id);
                assert(all[k] == id);
            }
            if all.contains(id) && id != last {
                let k = all.index_of(id);
                assert(some[k] == id);
            }
            if ids.no_duplicates() {
                assert(!most.contains(last)) by {
                    if most.contains(last) {
                        let i = most.index_of(last);
                        assert(ids[i] == ids[ids.len() - 1]);
                    }
                }
                assert forall|a: int, b: int| 0 <= a < b < all.len() implies all[a] != all[b] by {
                    if b == all.len() - 1 {
                        assert(some[a] == all[a]);
                    }
                }
            }
        }
    } else {
        assert(!ids.contains(id));
        assert(!all.contains(id));
    }
}

proof fn lemma_keys_counted(s: ControllerState)
    requires
        s.tenants.keys().no_duplicates(),
    ensures
        s.tenants.keys().len() == s.tenants@.dom().len(),
{
    let keys = s.tenants.keys();
    crate::strmap::lemma_keys(s.tenants);
    keys.unique_seq_to_set();
    assert forall|k: Seq<char>| keys.to_set().contains(k) implies s.tenants@.dom().contains(k) by {
        let i = keys.index_of(k);
        assert(s.tenants@.dom().contains(keys[i]));
    }
    assert(keys.to_set() =~= s.tenants@.dom());
}

/// A look at the tenants is a look at each that has a guest which serves or gave
/// memory back, once, and at no other.
pub proof fn lemma_cycle_looks_at_running_guests(
    s: &ControllerState,
    prom: &mut ControllerMetrics,
    ids: Vec<String>,
    id: Seq<char>,
)
    requires
        call_ensures(ControllerState::reconcile_cycle, (s, prom), ids),
    ensures
        (exists|i: int| 0 <= i < ids@.len() && (#[trigger] ids@[i])@ == id) <==> (
        s.tenants@.dom().contains(id) && (s.tenants@[id].status is Active
            || s.tenants@[id].status is SoftReclaimed)),
        forall|i: int, j: int|
            0 <= i < j < ids@.len() ==> (#[trigger] ids@[i])@ != (#[trigger] ids@[j])@,
        final(prom)@.reclaim_total == old(prom)@.reclaim_total,
        final(prom)@.acquire_duration == old(prom)@.acquire_duration,
        final(prom)@.acquire_errors == old(prom)@.acquire_errors,
        s.tenants@.dom().len() <= i64::MAX ==> final(prom)@.tenants_total
            == s.tenants@.dom().len(),
{
    let names = ids@.map_values(|i: String| i@);
    let keys = s.tenants.keys();
    crate::strmap::lemma_keys(s.tenants);
    lemma_to_review(s.tenants@, keys, id);
    if s.tenants@.dom().contains(id) {
        assert(keys.contains(id));
    }
    if keys.contains(id) {
        let k = keys.index_of(id);
        assert(s.tenants@.dom().contains(keys[k]));
    }
    if names.contains(id) {
        let i = names.index_of(id);
        assert(ids@[i]@ == id);
    }
    lemma_keys_counted(*s);
    assert forall|i: int| 0 <= i < ids@.len() && (#[trigger] ids@[i])@ == id implies names.contains(
        id,
    ) by {
        assert(names[i] == id);
    }
    assert forall|i: int, j: int| 0 <= i < j < ids@.len() implies (#[trigger] ids@[i])@ != (
    #[trigger] ids@[j])@ by {
        assert(names[i] != names[j]);
    }
}

/// How many of the tenants with these ids are in a status of the given kind.
pub open spec fn number_of(
    tenants: Tenants,
    ids: Seq<Seq<char>>,
    kind: spec_fn(VmStatus) -> bool,
) -> nat {
    ids.filter(|id: Seq<char>| kind(tenants[id].status)).len()
}

proof fn lemma_counted_so_far(tenants: Tenants, ids: Seq<Seq<char>>)
    requires
        ids.len() <= i64::MAX,
    ensures
        ({
            let c = reconciler::counts_of(tenants, ids);
            &&& c.sum() == ids.len()
            &&& c.active == number_of(tenants, ids, |v: VmStatus| v is Active)
            &&& c.soft == number_of(tenants, ids, |v: VmStatus| v is SoftReclaimed)
            &&& c.saved == number_of(tenants, ids, |v: VmStatus| v is Saved)
            &&& c.starting == number_of(tenants, ids, |v: VmStatus| v is Starting || v is Saving)
            &&& c.failed == number_of(tenants, ids, |v: VmStatus| v is Failed)
            &&& c.not_found == number_of(tenants, ids, |v: VmStatus| v is NotFound)
        }),
    decreases ids.len(),
{
    reveal(Seq::filter);
    if ids.len() > 0 {
        lemma_counted_so_far(tenants, ids.drop_last());
    }
}

/// The gauges show how many tenants are in each status, a guest that is being saved
/// counting as one that is being started. Two words that fall into one slot would
/// overwrite each other.
pub proof fn lemma_gauges_count_the_tenants(
    s: &ControllerState,
    prom: &mut ControllerMetrics,
    ids: Vec<String>,
)
    requires
        call_ensures(ControllerState::reconcile_cycle, (s, prom), ids),
        s.tenants@.dom().len() <= i64::MAX,
        seq![
            prom::label_slot(seq!["active"@]),
            prom::label_slot(seq!["soft_reclaimed"@]),
            prom::label_slot(seq!["saved"@]),
            prom::label_slot(seq!["starting"@]),
            prom::label_slot(seq!["failed"@]),
            prom::label_slot(seq!["not_found"@]),
        ].no_duplicates(),
    ensures
        ({
            let (t, keys, slots) = (s.tenants@, s.tenants.keys(), final(prom)@.vms_by_status);
            &&& prom::value_in(slots, seq!["active"@]) == number_of(
                t,
                keys,
                |v: VmStatus| v is Active,
            )
            &&& prom::value_in(slots, seq!["soft_reclaimed"@]) == number_of(
                t,
                keys,
                |v: VmStatus| v is SoftReclaimed,
            )
            &&& prom::value_in(slots, seq!["saved"@]) == number_of(
                t,
                keys,
                |v: VmStatus| v is Saved,
            )
            &&& prom::value_in(slots, seq!["starting"@]) == number_of(
                t,
                keys,
                |v: VmStatus| v is Starting || v is Saving,
            )
            &&& prom::value_in(slots, seq!["failed"@]) == number_of(
                t,
                keys,
                |v: VmStatus| v is Failed,
            )
            &&& prom::value_in(slots, seq!["not_found"@]) == number_of(
                t,
                keys,
                |v: VmStatus| v is NotFound,
            )
        }),
{
    lemma_keys_counted(*s);
    lemma_counted_so_far(s.tenants@, s.tenants.keys());
    let all = seq![
        prom::label_slot(seq!["active"@]),
        prom::label_slot(seq!["soft_reclaimed"@]),
        prom::label_slot(seq!["saved"@]),
        prom::label_slot(seq!["starting"@]),
        prom::label_slot(seq!["failed"@]),
        prom::label_slot(seq!["not_found"@]),
    ];
    assert forall|i: int, j: int| 0 <= i < j < 6 implies #[trigger] all[i] != #[trigger] all[j] by {}
    assert(all[0] != all[1] && all[0] != all[2] && all[0] != all[3] && all[0] != all[4] && all[0]
        != all[5]);
    assert(all[1] != all[2] && all[1] != all[3] && all[1] != all[4] && all[1] != all[5]);
    assert(all[2] != all[3] && all[2] != all[4] && all[2] != all[5]);
    assert(all[3] != all[4] && all[3] != all[5] && all[4] != all[5]);
}

/// A guest that just answered is in use: it gives nothing back, as long as the times
/// and the threshold of the configuration are not zero, and the answer is noted.
pub proof fn lemma_answering_guest_gives_nothing_back(
    t: TenantState,
    id: &str,
    now: Timestamp,
    config: &ControllerConfig,
    r: (TenantState, Decision),
)
    requires
        call_ensures(review, (t, id, Some(true), now, config), r),
        config.hard_reclaim_after_secs > 0,
        config.soft_reclaim_after_secs > 0,
        config.health_probe_fail_threshold > 0,
    ensures
        r.1 is Record,
{
}

/// A tenant that is deleted while its guest is looked at, saved or asked for memory
/// stays deleted, and no other tenant is touched.
pub proof fn lemma_deleted_tenant_stays_deleted(
    id: &str,
    t: TenantState,
    save_path: String,
    result: Result<(), Failure>,
    p1: &mut ControllerMetrics,
    p2: &mut ControllerMetrics,
    hard: &mut ControllerState,
    soft: &mut ControllerState,
    saving: &mut ControllerState,
    noted: &mut ControllerState,
)
    requires
        !old(hard).tenants@.dom().contains(id@),
        !old(soft).tenants@.dom().contains(id@),
        !old(saving).tenants@.dom().contains(id@),
        !old(noted).tenants@.dom().contains(id@),
        call_ensures(ControllerState::finish_hard, (hard, id, t, save_path, result, p1), ()),
        call_ensures(ControllerState::finish_soft, (soft, id, t, p2), ()),
        call_ensures(ControllerState::mark_saving, (saving, id), ()),
        call_ensures(ControllerState::record_probe, (noted, id, &t), ()),
    ensures
        final(hard).tenants@ == old(hard).tenants@,
        final(soft).tenants@ == old(soft).tenants@,
        final(saving).tenants@ == old(saving).tenants@,
        final(noted).tenants@ == old(noted).tenants@,
        final(hard).config == old(hard).config,
        final(soft).config == old(soft).config,
        final(saving).config == old(saving).config,
        final(noted).config == old(noted).config,
{
}

/// What the controller does to a tenant's guest leaves each tenant with what its
/// status promises: a saved guest has a snapshot, and one that serves or gave memory
/// back has an id and an address.
pub proof fn lemma_reclaim_keeps_promises(
    id: &str,
    t: TenantState,
    save_path: String,
    result: Result<(), Failure>,
    p1: &mut ControllerMetrics,
    p2: &mut ControllerMetrics,
    hard: &mut ControllerState,
    soft: &mut ControllerState,
    other: Seq<char>,
)
    requires
        controller::consistent(old(hard).tenants@),
        controller::consistent(old(soft).tenants@),
        t.config.tenant_id@ == id@,
        t.vm_id is Some,
        t.guest_ip is Some,
        call_ensures(ControllerState::finish_hard, (hard, id, t, save_path, result, p1), ()),
        call_ensures(ControllerState::finish_soft, (soft, id, t, p2), ()),
        final(hard).tenants@.dom().contains(other),
        final(soft).tenants@.dom().contains(other),
    ensures
        ({
            let (a, b) = (final(hard).tenants@[other], final(soft).tenants@[other]);
            &&& a.status is Saved ==> a.save_path is Some
            &&& a.status is Active || a.status is SoftReclaimed ==> a.vm_id is Some
                && a.guest_ip is Some
            &&& a.config.tenant_id@ == other
            &&& b.status is Saved ==> b.save_path is Some
            &&& b.status is Active || b.status is SoftReclaimed ==> b.vm_id is Some
                && b.guest_ip is Some
            &&& b.config.tenant_id@ == other
        }),
{
}

} // verus!
