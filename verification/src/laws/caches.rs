//! The cache of templates, and the metrics.
use vstd::prelude::*;

use crate::controller_metrics;
use crate::controller_metrics::{
    count_acquire_error, count_reclaim, observe_acquire, set_tenants_total, tenant_added,
    tenant_removed, ControllerMetrics,
};
use crate::pool::TemplatePool;
use crate::prom;
use crate::prometheus_metrics;
use crate::prometheus_metrics::{
    inc_http_request, observe_branch_duration, observe_fork_duration, observe_snapshot_duration,
    registry, remove_vm_memory, set_vm_count, set_vm_memory, Metrics,
};
use crate::snapshot;
use crate::snapshot::{LoadError, MemoryImage, TemplateSnapshot};
use crate::text;

verus! {

/// A new pool holds nothing. A template that is registered is served until its
/// runtime type is refreshed; other runtime types are not touched by either.
pub proof fn lemma_registered_template_is_served(
    base_dir: &str,
    fresh: TemplatePool,
    runtime_type: &str,
    other: &str,
    template: TemplateSnapshot,
    p: &mut TemplatePool,
    q: &mut TemplatePool,
    nothing: Option<&TemplateSnapshot>,
    served: Option<&TemplateSnapshot>,
    dropped: Option<&TemplateSnapshot>,
    other_before: Option<&TemplateSnapshot>,
    other_after: Option<&TemplateSnapshot>,
)
    requires
        call_ensures(TemplatePool::new, (base_dir,), fresh),
        call_ensures(TemplatePool::get, (&fresh, runtime_type), nothing),
        call_ensures(TemplatePool::register, (p, runtime_type, template), ()),
        call_ensures(TemplatePool::get, (&*final(p), runtime_type), served),
        *final(p) == *old(q),
        call_ensures(TemplatePool::refresh, (q, runtime_type), ()),
        call_ensures(TemplatePool::get, (&*final(q), runtime_type), dropped),
        other@ != runtime_type@,
        call_ensures(TemplatePool::get, (&*old(p), other), other_before),
        call_ensures(TemplatePool::get, (&*final(q), other), other_after),
    ensures
        nothing is None,
        fresh.root() == base_dir@,
        served is Some && *served->0 == template,
        dropped is None,
        other_before is Some <==> other_after is Some,
        other_before is Some ==> *other_before->0 == *other_after->0,
        final(q).root() == old(p).root(),
{
}

/// A template that is cached is served without being read. One that is not is read
/// from its runtime type's directory below the pool's and verified: with the
/// recorded digest it is served from then on, and without it the pool stays as it
/// is.
pub proof fn lemma_template_is_loaded_once<
    F: FnOnce(String) -> Result<(TemplateSnapshot, MemoryImage), LoadError>,
>(
    p: &mut TemplatePool,
    runtime_type: &str,
    read: F,
    template: TemplateSnapshot,
    image: Vec<u8>,
    r: Result<&TemplateSnapshot, LoadError>,
    next: Option<&TemplateSnapshot>,
)
    requires
        call_ensures(TemplatePool::get_or_load::<F>, (p, runtime_type, read), r),
        forall|dir: String, found: Result<(TemplateSnapshot, MemoryImage), LoadError>| #[trigger]
            read.ensures((dir,), found) && dir@ == text::joined(old(p).root(), runtime_type@)
                ==> found == Ok::<(TemplateSnapshot, MemoryImage), LoadError>(
                (template, MemoryImage::Bytes(image)),
            ),
        call_ensures(TemplatePool::get, (&*final(p), runtime_type), next),
    ensures
        old(p)@.dom().contains(runtime_type@) ==> r is Ok && *(r->Ok_0) == old(p)@[runtime_type@]
            && final(p)@ == old(p)@,
        !old(p)@.dom().contains(runtime_type@) ==> {
            &&& r is Ok <==> text::hex(snapshot::sha256(image@)) == template.memory_hash@
            &&& r is Ok ==> *(r->Ok_0) == template
            &&& r is Err ==> final(p)@ == old(p)@ && r->Err_0 is IntegrityMismatch
        },
        next is Some <==> r is Ok,
        r is Ok ==> *next->0 == *(r->Ok_0),
        final(p).root() == old(p).root(),
        forall|k: Seq<char>|
            k != runtime_type@ ==> (#[trigger] final(p)@.dom().contains(k) <==> old(
                p,
            )@.dom().contains(k)),
{
    if !old(p)@.dom().contains(runtime_type@) {
        let (dir, found, loaded) = choose|
            dir: String,
            found: Result<(TemplateSnapshot, MemoryImage), LoadError>,
            loaded: Result<TemplateSnapshot, LoadError>,
        |
            {
                &&& dir@ == text::joined(old(p).root(), runtime_type@)
                &&& #[trigger] read.ensures((dir,), found)
                &&& #[trigger] crate::pool::loaded_from(found, loaded)
                &&& match loaded {
                    Ok(t) => r is Ok && *r->Ok_0 == t && final(p)@ == old(p)@.insert(
                        runtime_type@,
                        t,
                    ),
                    Err(e) => r is Err && r->Err_0 == e && final(p)@ == old(p)@,
                }
            };
        assert(found == Ok::<(TemplateSnapshot, MemoryImage), LoadError>(
            (template, MemoryImage::Bytes(image)),
        ));
    }
}

/// The runtime types that are cached are listed, each once.
pub proof fn lemma_cached_types_are_listed(p: &TemplatePool, r: Vec<&str>, k: Seq<char>)
    requires
        call_ensures(TemplatePool::cached_runtime_types, (p,), r),
    ensures
        p@.dom().contains(k) <==> exists|i: int| 0 <= i < r@.len() && (#[trigger] r@[i])@ == k,
        forall|i: int, j: int| 0 <= i < j < r@.len() ==> (#[trigger] r@[i])@ != (#[trigger] r@[j])@,
{
    let names = r@.map_values(|s: &str| s@);
    if p@.dom().contains(k) {
        let i = names.index_of(k);
        assert(r@[i]@ == k);
    }
    assert forall|i: int| 0 <= i < r@.len() && (#[trigger] r@[i])@ == k implies p@.dom().contains(k) by {
        assert(names[i] == k);
        assert(names.contains(k));
    }
    assert forall|i: int, j: int| 0 <= i < j < r@.len() implies (#[trigger] r@[i])@ != (
    #[trigger] r@[j])@ by {
        assert(names[i] != names[j]);
    }
}

/// Each of the daemon's durations goes to its own histogram, and forks and snapshots
/// are counted; nothing else changes.
pub proof fn lemma_durations_are_kept_apart(
    f: &mut Metrics,
    b: &mut Metrics,
    s: &mut Metrics,
    nanos: u64,
)
    requires
        call_ensures(observe_fork_duration, (f, nanos), ()),
        call_ensures(observe_branch_duration, (b, nanos), ()),
        call_ensures(observe_snapshot_duration, (s, nanos), ()),
    ensures
        final(f)@.fork_durations == old(f)@.fork_durations.push(nanos),
        old(f)@.fork_total < u64::MAX ==> final(f)@.fork_total == old(f)@.fork_total + 1,
        final(f)@.branch_durations == old(f)@.branch_durations,
        final(f)@.snapshot_durations == old(f)@.snapshot_durations,
        final(f)@.snapshot_total == old(f)@.snapshot_total,
        final(f)@.vm_count == old(f)@.vm_count,
        final(b)@.branch_durations == old(b)@.branch_durations.push(nanos),
        final(b)@.fork_durations == old(b)@.fork_durations,
        final(b)@.snapshot_durations == old(b)@.snapshot_durations,
        final(b)@.fork_total == old(b)@.fork_total,
        final(b)@.snapshot_total == old(b)@.snapshot_total,
        final(s)@.snapshot_durations == old(s)@.snapshot_durations.push(nanos),
        old(s)@.snapshot_total < u64::MAX ==> final(s)@.snapshot_total == old(s)@.snapshot_total
            + 1,
        final(s)@.fork_durations == old(s)@.fork_durations,
        final(s)@.branch_durations == old(s)@.branch_durations,
        final(s)@.fork_total == old(s)@.fork_total,
{
}

/// A guest's memory is shown as it was last set, until it is dropped; the other
/// metrics are not touched.
pub proof fn lemma_memory_is_shown_until_dropped(
    a: &mut Metrics,
    b: &mut Metrics,
    vm_id: &str,
    bytes: u64,
    n: i64,
    c: &mut Metrics,
)
    requires
        call_ensures(set_vm_memory, (a, vm_id, bytes), ()),
        *final(a) == *old(b),
        call_ensures(remove_vm_memory, (b, vm_id), ()),
        call_ensures(set_vm_count, (c, n), ()),
    ensures
        ({
            let slot = prom::label_slot(seq![vm_id@]);
            &&& final(a)@.vm_memory.dom().contains(slot)
            &&& final(a)@.vm_memory[slot].1 == bytes
            &&& !old(a)@.vm_memory.dom().contains(slot) ==> final(a)@.vm_memory[slot].0 == seq![
                vm_id@,
            ]
            &&& !final(b)@.vm_memory.dom().contains(slot)
            &&& forall|k: u64|
                k != slot ==> (#[trigger] final(b)@.vm_memory.dom().contains(k) <==> old(
                    a,
                )@.vm_memory.dom().contains(k))
        }),
        final(a)@.vm_count == old(a)@.vm_count,
        final(b)@.vm_count == old(a)@.vm_count,
        final(c)@.vm_count == n,
        final(c)@.vm_memory == old(c)@.vm_memory,
        final(c)@.fork_durations == old(c)@.fork_durations,
{
}

/// Requests are counted by method, path and status, and nowhere else.
pub proof fn lemma_requests_are_counted(m: &mut Metrics, method: &str, path: &str, status: u16)
    requires
        call_ensures(inc_http_request, (m, method, path, status), ()),
    ensures
        ({
            let slot = prom::label_slot(seq![method@, path@, text::decimal(status as nat)]);
            let (before, after) = (old(m)@.http_requests, final(m)@.http_requests);
            &&& after.dom().contains(slot)
            &&& !before.dom().contains(slot) ==> after[slot].1 == 1 && after[slot].0 == seq![
                method@,
                path@,
                text::decimal(status as nat),
            ]
            &&& before.dom().contains(slot) && before[slot].1 < u64::MAX ==> after[slot].1
                == before[slot].1 + 1
            &&& forall|k: u64|
                k != slot && #[trigger] before.dom().contains(k) ==> after.dom().contains(k)
                    && after[k] == before[k]
        }),
        final(m)@.vm_count == old(m)@.vm_count,
        final(m)@.fork_total == old(m)@.fork_total,
{
}

/// A daemon's metrics begin at zero, and are shown under their names and with their
/// help texts.
pub proof fn lemma_daemon_metrics_are_shown(fresh: Metrics, m: &Metrics, s: String)
    requires
        call_ensures(registry, (), fresh),
        call_ensures(prometheus_metrics::render, (m,), s),
    ensures
        fresh@.vm_count == 0 && fresh@.fork_total == 0 && fresh@.snapshot_total == 0,
        fresh@.fork_durations.len() == 0 && fresh@.branch_durations.len() == 0,
        fresh@.snapshot_durations.len() == 0,
        fresh@.vm_memory.dom().is_empty() && fresh@.http_requests.dom().is_empty(),
        s@ == prom::exposition(
            seq![
                ("clone_vms_total"@, "Number of VMs currently tracked by the daemon"@, m@.vm_count),
            ],
            seq![
                ("clone_fork_total"@, "Total number of fork operations"@, m@.fork_total),
                ("clone_snapshot_total"@, "Total number of snapshot operations"@, m@.snapshot_total),
            ],
            seq![
                (
                    "clone_fork_duration_seconds"@,
                    "Time spent forking a VM from a template"@,
                    m@.fork_durations,
                ),
                (
                    "clone_branch_duration_seconds"@,
                    "Time spent live-branching a VM (UFFD_WP based)"@,
                    m@.branch_durations,
                ),
                (
                    "clone_snapshot_duration_seconds"@,
                    "Time spent snapshotting a VM"@,
                    m@.snapshot_durations,
                ),
            ],
            seq![
                (
                    "clone_vm_memory_bytes"@,
                    "Memory usage of a single VM in bytes"@,
                    seq!["vm_id"@],
                    m@.vm_memory,
                ),
            ],
            seq![
                (
                    "clone_http_requests_total"@,
                    "Number of HTTP requests served"@,
                    seq!["method"@, "path"@, "status"@],
                    m@.http_requests,
                ),
            ],
            seq![],
        ),
{
}

/// A controller's metrics begin at zero, and are shown under their names, with their
/// help texts and bucket bounds.
pub proof fn lemma_controller_metrics_are_shown(
    fresh: ControllerMetrics,
    m: &ControllerMetrics,
    s: String,
)
    requires
        call_ensures(controller_metrics::new_metrics, (), fresh),
        call_ensures(controller_metrics::render, (m,), s),
    ensures
        fresh@.tenants_total == 0,
        fresh@.vms_by_status.dom().is_empty() && fresh@.reclaim_total.dom().is_empty(),
        fresh@.acquire_duration.dom().is_empty() && fresh@.acquire_errors.dom().is_empty(),
        s@ == prom::exposition(
            seq![
                (
                    "clone_controller_tenants_total"@,
                    "Total tenants registered"@,
                    m@.tenants_total,
                ),
            ],
            seq![],
            seq![],
            seq![
                (
                    "clone_controller_vms_by_status"@,
                    "VMs in each lifecycle status"@,
                    seq!["status"@],
                    m@.vms_by_status,
                ),
            ],
            seq![
                (
                    "clone_controller_reclaim_total"@,
                    "Reclaim operations triggered"@,
                    seq!["type"@],
                    m@.reclaim_total,
                ),
                (
                    "clone_controller_acquire_errors_total"@,
                    "Failed acquire calls"@,
                    seq!["reason"@],
                    m@.acquire_errors,
                ),
            ],
            seq![
                (
                    "clone_controller_acquire_duration_seconds"@,
                    "Time spent in /v1/acquire"@,
                    seq!["outcome"@],
                    seq![50u64, 100, 250, 500, 1000, 2500, 5000, 10000, 30000],
                    m@.acquire_duration,
                ),
            ],
        ),
{
}

/// Registering a tenant and deleting one even out in the gauge, and leave the other
/// metrics alone.
pub proof fn lemma_added_and_removed_even_out(a: &mut ControllerMetrics, b: &mut ControllerMetrics)
    requires
        call_ensures(tenant_added, (a,), ()),
        *final(a) == *old(b),
        call_ensures(tenant_removed, (b,), ()),
    ensures
        old(a)@.tenants_total < i64::MAX ==> final(a)@.tenants_total == old(a)@.tenants_total + 1,
        final(b)@ == old(a)@,
        final(a)@.vms_by_status == old(a)@.vms_by_status,
        final(a)@.reclaim_total == old(a)@.reclaim_total,
{
}

/// Reclaims and failed acquires are counted by their kinds, each among its own.
pub proof fn lemma_events_are_counted_by_kind(
    r: &mut ControllerMetrics,
    e: &mut ControllerMetrics,
    o: &mut ControllerMetrics,
    t: &mut ControllerMetrics,
    word: &str,
    nanos: u64,
    n: i64,
)
    requires
        call_ensures(count_reclaim, (r, word), ()),
        call_ensures(count_acquire_error, (e, word), ()),
        call_ensures(observe_acquire, (o, word, nanos), ()),
        call_ensures(set_tenants_total, (t, n), ()),
    ensures
        ({
            let slot = prom::label_slot(seq![word@]);
            &&& final(r)@.reclaim_total.dom().contains(slot)
            &&& !old(r)@.reclaim_total.dom().contains(slot) ==> final(r)@.reclaim_total[slot] == (
                seq![word@],
                1u64,
            )
            &&& old(r)@.reclaim_total.dom().contains(slot) && old(r)@.reclaim_total[slot].1
                < u64::MAX ==> final(r)@.reclaim_total[slot].1 == old(r)@.reclaim_total[slot].1 + 1
            &&& final(r)@.acquire_errors == old(r)@.acquire_errors
            &&& final(r)@.acquire_duration == old(r)@.acquire_duration
            &&& final(e)@.acquire_errors.dom().contains(slot)
            &&& !old(e)@.acquire_errors.dom().contains(slot) ==> final(e)@.acquire_errors[slot] == (
                seq![word@],
                1u64,
            )
            &&& final(e)@.reclaim_total == old(e)@.reclaim_total
            &&& final(e)@.acquire_duration == old(e)@.acquire_duration
            &&& final(o)@.acquire_duration.dom().contains(slot)
            &&& final(o)@.acquire_duration[slot].1.last() == nanos
            &&& final(o)@.acquire_errors == old(o)@.acquire_errors
            &&& final(o)@.reclaim_total == old(o)@.reclaim_total
        }),
        final(t)@.tenants_total == n,
        final(t)@.vms_by_status == old(t)@.vms_by_status,
        final(t)@.reclaim_total == old(t)@.reclaim_total,
{
}

} // verus!
