//! Tenants: registering them, giving each its guest, and taking stock of them
//! after a restart.
use vstd::prelude::*;

use crate::clone_client::{AddressWait, CreateVmResp};
use crate::config::ControllerConfig;
use crate::controller;
use crate::controller::{
    after_address, after_allocate, after_balloon, after_format, after_launch, after_overlay_check,
    after_port, build_cmdline, wait_for_port, AcquireResp, AcquireTurn, Cleanup, ColdStart,
    ControllerState, Outcome, PortAttempt, PortWait,
};
use crate::controller_metrics::ControllerMetrics;
use crate::failure;
use crate::failure::Failure;
use crate::http::ApiError;
use crate::prom;
use crate::strmap::StrMap;
use crate::tenant::{load, TenantConfig, TenantState, VmStatus};
use crate::text;
use crate::timestamp::Timestamp;

verus! {

proof fn lemma_only_spaces(s: Seq<char>)
    requires
        forall|i: int| 0 <= i < s.len() ==> (#[trigger] s[i] == ' ' || s[i] == '\t' || s[i] == '\n'),
    ensures
        controller::blank(s),
    decreases s.len(),
{
    if s.len() > 0 {
        assert(s[0] == ' ' || s[0] == '\t' || s[0] == '\n');
        assert(text::is_space(s[0]));
        assert forall|i: int| 0 <= i < s.skip(1).len() implies (#[trigger] s.skip(1)[i] == ' '
            || s.skip(1)[i] == '\t' || s.skip(1)[i] == '\n') by {
            assert(s.skip(1)[i] == s[i + 1]);
        }
        lemma_only_spaces(s.skip(1));
    }
}

proof fn lemma_some_sign(s: Seq<char>, i: int)
    requires
        0 <= i < s.len(),
        '!' <= s[i] <= '~',
    ensures
        !controller::blank(s),
    decreases s.len(),
{
    if text::is_space(s[0]) {
        assert(s.skip(1)[i - 1] == s[i]);
        lemma_some_sign(s.skip(1), i - 1);
    } else if text::is_space(s.last()) {
        assert(s.drop_last()[i] == s[i]);
        lemma_some_sign(s.drop_last(), i);
    }
}

/// The text holds a printable character that is no space.
pub open spec fn has_sign(s: Seq<char>) -> bool {
    exists|i: int| 0 <= i < s.len() && '!' <= #[trigger] s[i] <= '~'
}

/// The text holds nothing but spaces, tabs and line feeds.
pub open spec fn only_spaces(s: Seq<char>) -> bool {
    forall|i: int| 0 <= i < s.len() ==> (#[trigger] s[i] == ' ' || s[i] == '\t' || s[i] == '\n')
}

/// A tenant needs an id, a kernel, a root file system and an overlay. A
/// registration that lacks one is refused as a bad request that says which, and
/// changes nothing.
pub proof fn lemma_incomplete_registration_is_refused(
    s: &mut ControllerState,
    cfg: TenantConfig,
    now: Timestamp,
    prom: &mut ControllerMetrics,
    r: Result<String, ApiError>,
)
    requires
        call_ensures(ControllerState::create_tenant, (s, cfg, now, prom), r),
        only_spaces(cfg.tenant_id@) || only_spaces(cfg.kernel@) || only_spaces(cfg.rootfs@)
            || only_spaces(cfg.overlay_path@),
    ensures
        r is Err,
        r->Err_0.status == 400,
        only_spaces(cfg.tenant_id@) ==> r->Err_0.message@ == "tenant_id is required"@,
        has_sign(cfg.tenant_id@) && (only_spaces(cfg.kernel@) || only_spaces(cfg.rootfs@))
            ==> r->Err_0.message@ == "kernel and rootfs are required"@,
        has_sign(cfg.tenant_id@) && has_sign(cfg.kernel@) && has_sign(cfg.rootfs@) && only_spaces(
            cfg.overlay_path@,
        ) ==> r->Err_0.message@ == "overlay_path is required"@,
        final(s).tenants@ == old(s).tenants@,
        final(s).config == old(s).config,
        final(prom)@ == old(prom)@,
{
    lemma_signs(cfg);
}

proof fn lemma_signs(cfg: TenantConfig)
    ensures
        only_spaces(cfg.tenant_id@) ==> controller::blank(cfg.tenant_id@),
        only_spaces(cfg.kernel@) ==> controller::blank(cfg.kernel@),
        only_spaces(cfg.rootfs@) ==> controller::blank(cfg.rootfs@),
        only_spaces(cfg.overlay_path@) ==> controller::blank(cfg.overlay_path@),
        has_sign(cfg.tenant_id@) ==> !controller::blank(cfg.tenant_id@),
        has_sign(cfg.kernel@) ==> !controller::blank(cfg.kernel@),
        has_sign(cfg.rootfs@) ==> !controller::blank(cfg.rootfs@),
        has_sign(cfg.overlay_path@) ==> !controller::blank(cfg.overlay_path@),
{
    lemma_sign_or_spaces(cfg.tenant_id@);
    lemma_sign_or_spaces(cfg.kernel@);
    lemma_sign_or_spaces(cfg.rootfs@);
    lemma_sign_or_spaces(cfg.overlay_path@);
}

proof fn lemma_sign_or_spaces(s: Seq<char>)
    ensures
        only_spaces(s) ==> controller::blank(s),
        has_sign(s) ==> !controller::blank(s),
{
    if only_spaces(s) {
        lemma_only_spaces(s);
    }
    if has_sign(s) {
        let i = choose|i: int| 0 <= i < s.len() && '!' <= #[trigger] s[i] <= '~';
        lemma_some_sign(s, i);
    }
}

/// A tenant that is registered is there under its id, as it registered and without
/// a guest, and its first acquire starts one. It cannot be registered again. No
/// other tenant is touched.
pub proof fn lemma_registered_tenant_is_there(
    s: &mut ControllerState,
    cfg: TenantConfig,
    now: Timestamp,
    prom: &mut ControllerMetrics,
    r: Result<String, ApiError>,
    id: &str,
    found: Result<&TenantState, ApiError>,
    again: &mut ControllerState,
    later: Timestamp,
    p1: &mut ControllerMetrics,
    twice: Result<String, ApiError>,
    next: &mut ControllerState,
    acquired: Result<(Outcome, AcquireTurn), ApiError>,
    other: Seq<char>,
)
    requires
        !old(s).tenants@.dom().contains(cfg.tenant_id@),
        has_sign(cfg.tenant_id@),
        has_sign(cfg.kernel@),
        has_sign(cfg.rootfs@),
        has_sign(cfg.overlay_path@),
        id@ == cfg.tenant_id@,
        call_ensures(ControllerState::create_tenant, (s, cfg, now, prom), r),
        call_ensures(ControllerState::get_tenant, (&*final(s), id), found),
        *final(s) == *old(again),
        call_ensures(ControllerState::create_tenant, (again, cfg, later, p1), twice),
        *final(s) == *old(next),
        call_ensures(ControllerState::acquire, (next, id), acquired),
        other != cfg.tenant_id@,
    ensures
        r is Ok,
        r->Ok_0@ == cfg.tenant_id@,
        found is Ok,
        ({
            let t = *(found->Ok_0);
            &&& t.config == cfg
            &&& t.status is NotFound
            &&& t.vm_id is None && t.guest_ip is None && t.save_path is None
            &&& t.last_request_at is None && t.last_health_ok_at is None
            &&& t.health_fail_count == 0 && t.reclaim_count == 0
            &&& t.created_at == now
            &&& t.last_error is None
        }),
        old(prom)@.tenants_total < i64::MAX ==> final(prom)@.tenants_total == old(
            prom,
        )@.tenants_total + 1,
        twice is Err,
        twice->Err_0.status == 409,
        twice->Err_0.message@ == "tenant "@ + cfg.tenant_id@ + " already exists"@,
        final(again).tenants@ == old(again).tenants@,
        acquired matches Ok((outcome, turn)) && outcome == Outcome::ColdCreate
            && turn is CheckOverlay,
        final(s).tenants@.dom().contains(other) <==> old(s).tenants@.dom().contains(other),
        old(s).tenants@.dom().contains(other) ==> final(s).tenants@[other] == old(s).tenants@[other],
        final(s).config == old(s).config,
{
    lemma_signs(cfg);
}

/// A tenant that is deleted is gone, and so is what it had: a guest that it still
/// has is to be destroyed, and its snapshot is to be removed. No other tenant is
/// touched.
pub proof fn lemma_deleted_tenant_is_gone(
    s: &mut ControllerState,
    id: &str,
    prom: &mut ControllerMetrics,
    r: Result<Cleanup, ApiError>,
    found: Result<&TenantState, ApiError>,
    other: Seq<char>,
)
    requires
        call_ensures(ControllerState::delete_tenant, (s, id, prom), r),
        call_ensures(ControllerState::get_tenant, (&*final(s), id), found),
        other != id@,
    ensures
        r is Ok <==> old(s).tenants@.dom().contains(id@),
        r matches Ok(c) ==> {
            let t = old(s).tenants@[id@];
            &&& c.remove_dir == t.save_path
            &&& t.status is Active || t.status is SoftReclaimed || t.status is Starting
                || t.status is Saving || t.status is Failed ==> c.destroy == t.vm_id
            &&& t.status is Saved || t.status is NotFound ==> c.destroy is None
            &&& old(prom)@.tenants_total > i64::MIN ==> final(prom)@.tenants_total == old(
                prom,
            )@.tenants_total - 1
        },
        r matches Err(e) ==> e.status == 404 && e.message@ == "tenant "@ + id@ + " not found"@
            && final(s).tenants@ == old(s).tenants@ && final(prom)@ == old(prom)@,
        found is Err,
        found->Err_0.status == 404,
        found->Err_0.message@ == "tenant "@ + id@ + " not found"@,
        final(s).tenants@.dom().contains(other) <==> old(s).tenants@.dom().contains(other),
        old(s).tenants@.dom().contains(other) ==> final(s).tenants@[other] == old(s).tenants@[other],
        final(s).config == old(s).config,
{
    if !old(s).tenants@.dom().contains(id@) {
        assert(old(s).tenants@.remove(id@) =~= old(s).tenants@);
    }
}

/// The list of tenants holds each once.
pub proof fn lemma_list_holds_every_tenant(s: &ControllerState, r: Vec<&TenantState>, id: Seq<char>)
    requires
        controller::consistent(s.tenants@),
        call_ensures(ControllerState::list_tenants, (s,), r),
        s.tenants@.dom().contains(id),
    ensures
        exists|i: int| 0 <= i < r@.len() && *(#[trigger] r@[i]) == s.tenants@[id],
        forall|i: int, j: int|
            0 <= i < j < r@.len() ==> (#[trigger] r@[i]).config.tenant_id@ != (
            #[trigger] r@[j]).config.tenant_id@,
{
    let keys = s.tenants.keys();
    crate::strmap::lemma_keys(s.tenants);
    assert(keys.contains(id));
    let i = keys.index_of(id);
    assert(*r@[i] == s.tenants@[keys[i]]);
    assert forall|i: int, j: int| 0 <= i < j < r@.len() implies (
    #[trigger] r@[i]).config.tenant_id@ != (#[trigger] r@[j]).config.tenant_id@ by {
        assert(s.tenants@.dom().contains(keys[i]) && s.tenants@.dom().contains(keys[j]));
        assert(keys[i] != keys[j]);
    }
}

/// A new guest is started as its tenant registered: with its kernel, root file
/// system, overlay, shared directory, memory and limit, on one vCPU and with a
/// network. Meanwhile the tenant counts as starting, and another acquire is told to
/// come back.
pub proof fn lemma_cold_start_is_as_registered(
    s: &mut ControllerState,
    id: &str,
    r: Result<(Outcome, AcquireTurn), ApiError>,
    next: &mut ControllerState,
    again: Result<(Outcome, AcquireTurn), ApiError>,
    other: Seq<char>,
)
    requires
        old(s).tenants@.dom().contains(id@),
        old(s).tenants@[id@].status is NotFound || (old(s).tenants@[id@].status is Failed && old(
            s,
        ).tenants@[id@].save_path is None),
        call_ensures(ControllerState::acquire, (s, id), r),
        *final(s) == *old(next),
        call_ensures(ControllerState::acquire, (next, id), again),
        other != id@,
    ensures
        r matches Ok((outcome, AcquireTurn::CheckOverlay(start))) && outcome == Outcome::ColdCreate
            && {
            let cfg = old(s).tenants@[id@].config;
            &&& start.overlay_path == cfg.overlay_path
            &&& start.health_port == cfg.app_health_port
            &&& start.request.kernel == cfg.kernel
            &&& start.request.rootfs == Some(cfg.rootfs)
            &&& start.request.overlay == Some(cfg.overlay_path)
            &&& start.request.shared_dir == cfg.shared_dir
            &&& start.request.mem_mb == Some(cfg.mem_mb)
            &&& start.request.vcpus == Some(1u32)
            &&& start.request.net == Some(true)
            &&& start.request.memory_limit_mb == cfg.memory_limit_mb
            &&& start.request.cmdline is Some
            &&& cfg.init_cmd is None ==> start.request.cmdline->0@
                == "console=ttyS0 reboot=k panic=1 nokaslr quiet"@
            &&& cfg.init_cmd is Some ==> start.request.cmdline->0@
                == "console=ttyS0 reboot=k panic=1 nokaslr quiet"@ + " clone.init="@
                + cfg.init_cmd->0@
        },
        final(s).tenants@[id@].status is Starting,
        final(s).tenants@[id@].config == old(s).tenants@[id@].config,
        again is Err,
        again->Err_0.status == 503,
        again->Err_0.message@ == "tenant "@ + id@ + " is "@ + "starting"@ + ", retry later"@,
        final(next).tenants@ == old(next).tenants@,
        old(s).tenants@.dom().contains(other) ==> final(s).tenants@[other] == old(s).tenants@[other],
        final(s).tenants@.dom() =~= old(s).tenants@.dom(),
        final(s).config == old(s).config,
{
}

/// A tenant whose guest serves gets it at once, and nothing changes for that. A
/// tenant that is not registered is not found.
pub proof fn lemma_serving_guest_is_handed_out(
    s: &mut ControllerState,
    id: &str,
    r: Result<(Outcome, AcquireTurn), ApiError>,
)
    requires
        call_ensures(ControllerState::acquire, (s, id), r),
    ensures
        old(s).tenants@.dom().contains(id@) && old(s).tenants@[id@].status is Active ==> (r matches Ok(
            (outcome, turn),
        ) && outcome == Outcome::FastPath && turn is Ready && final(s).tenants@ == old(s).tenants@),
        !old(s).tenants@.dom().contains(id@) ==> (r matches Err(e) && e.status == 404 && e.message@
            == "tenant "@ + id@ + " not found"@ && final(s).tenants@ == old(s).tenants@),
        old(s).tenants@.dom().contains(id@) && (old(s).tenants@[id@].status is Starting || old(
            s,
        ).tenants@[id@].status is Saving) ==> (r matches Err(e) && e.status == 503
            && final(s).tenants@ == old(s).tenants@),
        old(s).tenants@.dom().contains(id@) && old(s).tenants@[id@].status is Saved && old(
            s,
        ).tenants@[id@].save_path is Some ==> (r matches Ok(
            (outcome, AcquireTurn::Restore { request }),
        ) && outcome == Outcome::Restore && request.snapshot_path == old(
            s,
        ).tenants@[id@].save_path->0 && request.net == Some(true) && request.shared_dir == old(
            s,
        ).tenants@[id@].config.shared_dir && request.memory_limit_mb == old(
            s,
        ).tenants@[id@].config.memory_limit_mb && final(s).tenants@[id@].status is Starting),
{
}

/// A new guest is asked for once its overlay is there, with the request as it was
/// made: one that is missing is allocated and formatted first, in this order and at
/// its own path, and if either fails the guest is not asked for.
pub proof fn lemma_overlay_comes_first(
    start: ColdStart,
    there: AcquireTurn,
    missing: AcquireTurn,
    allocated: Result<(), String>,
    second: AcquireTurn,
    formatted: Result<Option<u8>, String>,
    third: AcquireTurn,
)
    requires
        call_ensures(after_overlay_check, (start, true), there),
        call_ensures(after_overlay_check, (start, false), missing),
        missing is Allocate ==> call_ensures(
            after_allocate,
            (missing->Allocate_start, missing->then, allocated),
            second,
        ),
        second is Format ==> call_ensures(
            after_format,
            (second->Format_start, formatted),
            third,
        ),
    ensures
        there matches AcquireTurn::Create { request, health_port } && request == start.request
            && health_port == start.health_port,
        missing is Allocate,
        missing->Allocate_command.program@ == "fallocate"@,
        missing->Allocate_command.args@.map_values(|a: String| a@) == seq![
            "-l"@,
            "4G"@,
            start.overlay_path@,
        ],
        allocated is Err ==> second is Fail && second->Fail_0@ == seq![
            "fallocate failed: "@ + allocated->Err_0@,
        ],
        allocated is Ok ==> {
            &&& second is Format
            &&& second->Format_command.program@ == "mkfs.ext4"@
            &&& second->Format_command.args@.map_values(|a: String| a@) == seq![
                "-q"@,
                "-F"@,
                start.overlay_path@,
            ]
            &&& formatted == Ok::<Option<u8>, String>(Some(0)) ==> (
            third matches AcquireTurn::Create { request, health_port } && request == start.request
                && health_port == start.health_port)
            &&& formatted != Ok::<Option<u8>, String>(Some(0)) ==> third is Fail
            &&& formatted matches Err(e) ==> third is Fail && third->Fail_0@ == seq![e@]
            &&& formatted == Ok::<Option<u8>, String>(None) ==> third->Fail_0@ == seq![
                "mkfs.ext4 exit "@ + "None"@,
            ]
        },
{
}

/// From the daemon's answer to the tenant's. The guest that the daemon started is
/// asked for its address; once it has one, and its port, if it registered one, is
/// open, it is the tenant's guest, and the tenant is answered with that guest's id
/// and address. From then on the tenant's guest serves.
pub proof fn lemma_started_guest_is_handed_out(
    started: CreateVmResp,
    outcome: Outcome,
    health_port: Option<u16>,
    first: AcquireTurn,
    ip: String,
    second: AcquireTurn,
    third: AcquireTurn,
    s: &mut ControllerState,
    id: &str,
    done: &mut ControllerState,
    now: Timestamp,
    nanos: u64,
    prom: &mut ControllerMetrics,
    r: Result<AcquireResp, ApiError>,
    next: &mut ControllerState,
    again: Result<(Outcome, AcquireTurn), ApiError>,
    other: Seq<char>,
)
    requires
        call_ensures(
            after_launch,
            (Ok::<CreateVmResp, Failure>(started), outcome, health_port),
            first,
        ),
        first is FindAddress ==> call_ensures(
            after_address,
            (
                first->FindAddress_vm_id,
                first->FindAddress_outcome,
                first->FindAddress_health_port,
                AddressWait::Found(ip),
            ),
            second,
        ),
        second is AwaitPort ==> call_ensures(
            after_port,
            (
                second->AwaitPort_vm_id,
                second->AwaitPort_ip,
                second->AwaitPort_port,
                PortWait::Open,
            ),
            third,
        ),
        second is Started ==> third == second,
        old(s).tenants@.dom().contains(id@),
        third is Started ==> call_ensures(
            ControllerState::finish_start,
            (s, id, third->Started_vm_id, third->Started_ip),
            (),
        ),
        *final(s) == *old(done),
        call_ensures(ControllerState::finish_acquire, (done, id, outcome, now, nanos, prom), r),
        *final(done) == *old(next),
        call_ensures(ControllerState::acquire, (next, id), again),
        other != id@,
    ensures
        first is FindAddress && first->FindAddress_vm_id == started.vm_id,
        health_port is Some ==> second is AwaitPort && Some(second->AwaitPort_port) == health_port
            && second->AwaitPort_ip == ip && second->AwaitPort_vm_id == started.vm_id,
        third is Started,
        r is Ok,
        r->Ok_0.vm_id@ == started.vm_id@,
        r->Ok_0.ip@ == ip@,
        r->Ok_0.status@ == "active"@,
        outcome == Outcome::ColdCreate ==> r->Ok_0.outcome@ == "cold_create"@,
        outcome == Outcome::Restore ==> r->Ok_0.outcome@ == "restore"@,
        ({
            let before = old(s).tenants@[id@];
            let after = final(done).tenants@[id@];
            &&& after.status is Active
            &&& after.vm_id == Some(started.vm_id)
            &&& after.guest_ip == Some(ip)
            &&& after.last_request_at == Some(now)
            &&& after.health_fail_count == 0
            &&& after.last_error is None
            &&& after.config == before.config
            &&& after.save_path == before.save_path
            &&& after.reclaim_count == before.reclaim_count
            &&& after.created_at == before.created_at
        }),
        again matches Ok((o, turn)) && o == Outcome::FastPath && turn is Ready,
        final(done).tenants@.dom() =~= old(s).tenants@.dom(),
        old(s).tenants@.dom().contains(other) ==> final(done).tenants@[other]
            == old(s).tenants@[other],
        final(prom)@.acquire_errors == old(prom)@.acquire_errors,
        final(prom)@.tenants_total == old(prom)@.tenants_total,
{
}

/// How long an acquire took is observed under the outcome it had: the durations of
/// that outcome grow by this one.
pub proof fn lemma_acquire_is_observed(
    s: &mut ControllerState,
    id: &str,
    outcome: Outcome,
    now: Timestamp,
    nanos: u64,
    prom: &mut ControllerMetrics,
    r: Result<AcquireResp, ApiError>,
)
    requires
        call_ensures(ControllerState::finish_acquire, (s, id, outcome, now, nanos, prom), r),
    ensures
        ({
            let word = match outcome {
                Outcome::ColdCreate => "cold_create"@,
                Outcome::Restore => "restore"@,
                Outcome::Recover => "recover"@,
                Outcome::FastPath => "fast_path"@,
            };
            let slot = prom::label_slot(seq![word]);
            let before = old(prom)@.acquire_duration;
            let after = final(prom)@.acquire_duration;
            &&& after.dom().contains(slot)
            &&& before.dom().contains(slot) ==> after[slot].1 == before[slot].1.push(nanos)
            &&& !before.dom().contains(slot) ==> after[slot].1 == seq![nanos] && after[slot].0
                == seq![word]
            &&& r matches Ok(a) ==> a.outcome@ == word
        }),
        r is Ok <==> old(s).tenants@.dom().contains(id@),
        r matches Err(e) ==> e.status == 500 && e.message@ == "tenant vanished"@,
{
}

/// An acquire that fails is answered with the whole reason, observed as an error,
/// and counted under the outcome that was meant. The tenant has failed, keeps what
/// it has, and its next acquire starts over: from its snapshot, if it has one.
pub proof fn lemma_failed_acquire_starts_over(
    s: &mut ControllerState,
    id: &str,
    outcome: Outcome,
    e: &Failure,
    nanos: u64,
    prom: &mut ControllerMetrics,
    r: ApiError,
    next: &mut ControllerState,
    again: Result<(Outcome, AcquireTurn), ApiError>,
    other: Seq<char>,
)
    requires
        old(s).tenants@.dom().contains(id@),
        call_ensures(ControllerState::fail_acquire, (s, id, outcome, e, nanos, prom), r),
        *final(s) == *old(next),
        call_ensures(ControllerState::acquire, (next, id), again),
        other != id@,
    ensures
        r.status == 500,
        e@.len() == 1 ==> r.message@ == e@[0],
        e@.len() == 2 ==> r.message@ == e@[0] + ": "@ + e@[1],
        ({
            let before = old(s).tenants@[id@];
            let after = final(s).tenants@[id@];
            &&& after.status matches VmStatus::Failed(m) && m@ == e@[0]
            &&& after.last_error is Some && after.last_error->0@ == e@[0]
            &&& after.vm_id == before.vm_id
            &&& after.guest_ip == before.guest_ip
            &&& after.save_path == before.save_path
            &&& after.config == before.config
            &&& before.save_path is None ==> (again matches Ok((o, turn)) && o
                == Outcome::ColdCreate && turn is CheckOverlay)
            &&& before.save_path is Some ==> (again matches Ok(
                (o, AcquireTurn::Restore { request }),
            ) && o == Outcome::Restore && request.snapshot_path == before.save_path->0)
        }),
        old(s).tenants@.dom().contains(other) ==> final(s).tenants@[other] == old(s).tenants@[other],
        final(s).tenants@.dom() == old(s).tenants@.dom(),
        ({
            let slot = prom::label_slot(seq!["error"@]);
            let before = old(prom)@.acquire_duration;
            let after = final(prom)@.acquire_duration;
            &&& after.dom().contains(slot)
            &&& before.dom().contains(slot) ==> after[slot].1 == before[slot].1.push(nanos)
            &&& !before.dom().contains(slot) ==> after[slot].1 == seq![nanos]
        }),
        ({
            let word = match outcome {
                Outcome::ColdCreate => "cold_create"@,
                Outcome::Restore => "restore"@,
                Outcome::Recover => "recover"@,
                Outcome::FastPath => "fast_path"@,
            };
            let before = prom::value_in(old(prom)@.acquire_errors, seq![word]);
            before < u64::MAX ==> prom::value_in(final(prom)@.acquire_errors, seq![word]) == before
                + 1
        }),
{
    reveal_with_fuel(failure::joined_messages, 3);
    if e@.len() == 2 {
        assert(e@.drop_last() =~= seq![e@[0]]);
    }
}

/// A guest that gets no address is destroyed before the acquire fails, and the
/// failure says so; one whose port does not open is not. A guest is asked again
/// until either.
pub proof fn lemma_unreachable_guest_is_given_up(
    vm_id: String,
    ip: String,
    port: u16,
    outcome: Outcome,
    health_port: Option<u16>,
    e: Failure,
    no_address: AcquireTurn,
    retried: AcquireTurn,
    no_port: AcquireTurn,
    port_retried: AcquireTurn,
)
    requires
        call_ensures(
            after_address,
            (vm_id, outcome, health_port, AddressWait::GiveUp(e)),
            no_address,
        ),
        call_ensures(after_address, (vm_id, outcome, health_port, AddressWait::Retry), retried),
        call_ensures(after_port, (vm_id, ip, port, PortWait::GiveUp(e)), no_port),
        call_ensures(after_port, (vm_id, ip, port, PortWait::Retry), port_retried),
    ensures
        no_address matches AcquireTurn::Discard { vm_id: gone, failure } && gone == vm_id && (outcome
            == Outcome::Restore ==> failure@ == seq!["fetch_guest_ip after restore"@] + e@) && (
        outcome != Outcome::Restore ==> failure@ == seq!["fetch_guest_ip"@] + e@),
        retried matches AcquireTurn::FindAddress { vm_id: v, outcome: o, health_port: h } && v
            == vm_id && o == outcome && h == health_port,
        no_port == AcquireTurn::Fail(e),
        port_retried matches AcquireTurn::AwaitPort { vm_id: v, ip: i, port: p } && v == vm_id && i
            == ip && p == port,
{
}

/// A port is given fifteen seconds to open, and an address that is none is given
/// up at once.
pub proof fn lemma_port_has_fifteen_seconds(
    ip: &str,
    port: u16,
    attempt: PortAttempt,
    waited: u64,
    w: PortWait,
)
    requires
        call_ensures(wait_for_port, (ip, port, attempt, waited), w),
    ensures
        w is Open <==> attempt is Connected,
        w is Retry <==> attempt is Refused && waited < 15 * 1_000_000_000,
        w is GiveUp && attempt is Refused ==> w->GiveUp_0@ == seq![
            "app port "@ + text::decimal(port as nat) + " on "@ + ip@ + " not up within 15s"@,
        ],
        attempt matches PortAttempt::BadAddress(reason) ==> w is GiveUp && w->GiveUp_0@ == seq![
            "bad ip:port: "@ + reason@,
        ],
{
}

/// What the daemon could not do fails the acquire for the daemon's reason.
pub proof fn lemma_daemon_failure_is_passed_on(
    e: Failure,
    outcome: Outcome,
    health_port: Option<u16>,
    launched: AcquireTurn,
    grown: AcquireTurn,
    recovered: AcquireTurn,
)
    requires
        call_ensures(
            after_launch,
            (Err::<CreateVmResp, Failure>(e), outcome, health_port),
            launched,
        ),
        call_ensures(after_balloon, (Err::<(), Failure>(e),), grown),
        call_ensures(after_balloon, (Ok::<(), Failure>(()),), recovered),
    ensures
        launched == AcquireTurn::Fail(e),
        grown == AcquireTurn::Fail(e),
        recovered is Recovered,
{
}

/// A release is a use. An idle guest that gave memory back serves again, and the
/// next acquire hands it out at once. No other tenant is touched, and one that is
/// not registered is not found.
pub proof fn lemma_release_is_a_use(
    s: &mut ControllerState,
    id: &str,
    now: Timestamp,
    r: Result<(), ApiError>,
    next: &mut ControllerState,
    again: Result<(Outcome, AcquireTurn), ApiError>,
    other: Seq<char>,
)
    requires
        call_ensures(ControllerState::release, (s, id, now), r),
        *final(s) == *old(next),
        call_ensures(ControllerState::acquire, (next, id), again),
        other != id@,
    ensures
        r is Ok <==> old(s).tenants@.dom().contains(id@),
        r matches Err(e) ==> e.status == 404 && e.message@ == "tenant "@ + id@ + " not found"@
            && final(s).tenants@ == old(s).tenants@,
        r is Ok ==> {
            let before = old(s).tenants@[id@];
            let after = final(s).tenants@[id@];
            &&& after.last_request_at == Some(now)
            &&& before.status is SoftReclaimed || before.status is Active ==> after.status is Active
                && (again matches Ok((o, turn)) && o == Outcome::FastPath && turn is Ready)
            &&& !(before.status is SoftReclaimed) ==> after.status == before.status
            &&& after.vm_id == before.vm_id
            &&& after.guest_ip == before.guest_ip
            &&& after.save_path == before.save_path
            &&& after.config == before.config
            &&& after.health_fail_count == before.health_fail_count
            &&& after.reclaim_count == before.reclaim_count
        },
        old(s).tenants@.dom().contains(other) ==> final(s).tenants@[other] == old(s).tenants@[other],
        final(s).tenants@.dom() =~= old(s).tenants@.dom(),
{
}

/// A controller that is started again has the same tenants. What was saved is
/// restored from its snapshot when it is next acquired; a guest that was running,
/// starting or being saved is taken to be gone, and its tenant gets a new one.
pub proof fn lemma_tenants_survive_a_restart(
    left: StrMap<TenantState>,
    tenants: StrMap<TenantState>,
    config: ControllerConfig,
    restarted: ControllerState,
    s: &mut ControllerState,
    id: &str,
    r: Result<(Outcome, AcquireTurn), ApiError>,
)
    requires
        call_ensures(load, (left,), tenants),
        call_ensures(ControllerState::new, (config, tenants), restarted),
        restarted == *old(s),
        call_ensures(ControllerState::acquire, (s, id), r),
        left@.dom().contains(id@),
    ensures
        tenants@.dom() == left@.dom(),
        restarted.config == config,
        ({
            let before = left@[id@];
            let after = restarted.tenants@[id@];
            &&& after.config == before.config
            &&& after.created_at == before.created_at
            &&& after.reclaim_count == before.reclaim_count
            &&& after.last_request_at == before.last_request_at
            &&& after.health_fail_count == 0
            &&& after.last_error is None
            &&& before.status is Saved && before.save_path is Some ==> (r matches Ok(
                (o, AcquireTurn::Restore { request }),
            ) && o == Outcome::Restore && request.snapshot_path == before.save_path->0)
            &&& before.status is Active || before.status is SoftReclaimed
                || before.status is Starting || before.status is Saving || before.status is NotFound
                ==> (r matches Ok((o, turn)) && o == Outcome::ColdCreate && turn is CheckOverlay)
            &&& before.status is Active || before.status is SoftReclaimed
                || before.status is Starting || before.status is Saving ==> after.vm_id is None
                && after.guest_ip is None && after.save_path is None
            &&& before.status is Saved || before.status is Failed ==> after.status == before.status
                && after.save_path == before.save_path && after.vm_id == before.vm_id
        }),
{
}

/// The kernel command line of a guest runs the tenant's command, if it has one.
pub proof fn lemma_cmdline_runs_the_command(cfg: &TenantConfig, s: String)
    requires
        call_ensures(build_cmdline, (cfg,), s),
    ensures
        cfg.init_cmd is None ==> s@ == "console=ttyS0 reboot=k panic=1 nokaslr quiet"@,
        cfg.init_cmd is Some ==> s@ == "console=ttyS0 reboot=k panic=1 nokaslr quiet"@
            + " clone.init="@ + cfg.init_cmd->0@,
{
}

/// An acquire is answered with the id and address of the tenant's own guest.
pub proof fn lemma_answer_names_the_tenants_guest(
    s: &mut ControllerState,
    id: &str,
    outcome: Outcome,
    now: Timestamp,
    nanos: u64,
    prom: &mut ControllerMetrics,
    r: Result<AcquireResp, ApiError>,
)
    requires
        call_ensures(ControllerState::finish_acquire, (s, id, outcome, now, nanos, prom), r),
        old(s).tenants@.dom().contains(id@),
    ensures
        r matches Ok(a) && a.status@ == "active"@ && {
            let t = old(s).tenants@[id@];
            &&& t.vm_id is Some ==> a.vm_id@ == t.vm_id->0@
            &&& t.guest_ip is Some ==> a.ip@ == t.guest_ip->0@
            &&& t.vm_id is None ==> a.vm_id@.len() == 0
            &&& t.guest_ip is None ==> a.ip@.len() == 0
        },
        final(s).tenants@[id@].status == old(s).tenants@[id@].status,
        final(s).tenants@[id@].last_request_at == Some(now),
        final(s).tenants@[id@].health_fail_count == 0,
{
}

/// A tenant that lacks what its status promises cannot be helped by an acquire: it
/// fails, says what is missing, and changes nothing.
pub proof fn lemma_missing_parts_fail(
    s: &mut ControllerState,
    id: &str,
    r: Result<(Outcome, AcquireTurn), ApiError>,
)
    requires
        call_ensures(ControllerState::acquire, (s, id), r),
        old(s).tenants@.dom().contains(id@),
    ensures
        old(s).tenants@[id@].status is Saved && old(s).tenants@[id@].save_path is None ==> (
        r matches Ok((o, AcquireTurn::Fail(e))) && o == Outcome::Restore && e@ == seq![
            "no save_path; cannot restore"@,
        ] && final(s).tenants@ == old(s).tenants@),
        old(s).tenants@[id@].status is SoftReclaimed && old(s).tenants@[id@].vm_id is None ==> (
        r matches Ok((o, AcquireTurn::Fail(e))) && o == Outcome::Recover && e@ == seq![
            "no vm_id; cannot recover"@,
        ] && final(s).tenants@ == old(s).tenants@),
{
}

/// Whatever is done with a tenant, each tenant stays under its own id and has what
/// its status promises: a saved guest has a snapshot, one that serves or gave memory
/// back has an id and an address, and a tenant that never had one has no snapshot.
pub proof fn lemma_promises_are_kept(
    a: &mut ControllerState,
    id: &str,
    acquired: Result<(Outcome, AcquireTurn), ApiError>,
    b: &mut ControllerState,
    vm_id: String,
    ip: String,
    c: &mut ControllerState,
    now: Timestamp,
    released: Result<(), ApiError>,
    d: &mut ControllerState,
    cfg: TenantConfig,
    prom: &mut ControllerMetrics,
    created: Result<String, ApiError>,
    other: Seq<char>,
)
    requires
        controller::consistent(old(a).tenants@),
        controller::consistent(old(b).tenants@),
        controller::consistent(old(c).tenants@),
        controller::consistent(old(d).tenants@),
        old(b).tenants@.dom().contains(id@),
        call_ensures(ControllerState::acquire, (a, id), acquired),
        call_ensures(ControllerState::finish_start, (b, id, vm_id, ip), ()),
        call_ensures(ControllerState::release, (c, id, now), released),
        call_ensures(ControllerState::create_tenant, (d, cfg, now, prom), created),
    ensures
        promised(final(a).tenants@, other),
        promised(final(b).tenants@, other),
        promised(final(c).tenants@, other),
        promised(final(d).tenants@, other),
{
}

/// The tenant, if there is one of that id, is kept under its id and has what its
/// status promises.
pub open spec fn promised(tenants: controller::Tenants, id: Seq<char>) -> bool {
    tenants.dom().contains(id) ==> {
        let t = tenants[id];
        &&& t.config.tenant_id@ == id
        &&& t.status is Saved ==> t.save_path is Some
        &&& t.status is Active || t.status is SoftReclaimed ==> t.vm_id is Some
            && t.guest_ip is Some
        &&& t.status is NotFound ==> t.save_path is None
    }
}

} // verus!
