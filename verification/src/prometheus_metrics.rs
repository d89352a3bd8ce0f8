//! Metrics of the daemon in the Prometheus format: how many guests there are,
//! how much memory each uses, how long operations took, and how many HTTP
//! requests were served.
use vstd::prelude::*;

use crate::prom;
use crate::prom::{
    gather_and_encode, inc_counter, inc_labelled, new_counter, new_counter_family, new_gauge,
    new_gauge_family, new_histogram, observe, remove_labelled, set_gauge, set_labelled, Counter,
    CounterFamily, Gauge, GaugeFamily, DurationHistogram, HistogramFamily,
};
use crate::text;
use crate::text::decimal_string;

verus! {

/// All metrics of the daemon.
pub struct Metrics {
    vm_count: Gauge,
    vm_memory: GaugeFamily,
    fork_duration: DurationHistogram,
    branch_duration: DurationHistogram,
    snapshot_duration: DurationHistogram,
    http_requests: CounterFamily,
    fork_total: Counter,
    snapshot_total: Counter,
}

/// What the metrics say.
pub struct MetricsView {
    /// Number of guests tracked.
    pub vm_count: i64,
    /// Memory of each guest, by the slot of its id.
    pub vm_memory: Map<u64, (Seq<Seq<char>>, u64)>,
    /// How long each fork took, in nanoseconds.
    pub fork_durations: Seq<u64>,
    /// How long each branch took, in nanoseconds.
    pub branch_durations: Seq<u64>,
    /// How long each snapshot took, in nanoseconds.
    pub snapshot_durations: Seq<u64>,
    /// Requests served, by the slot of method, path and status.
    pub http_requests: Map<u64, (Seq<Seq<char>>, u64)>,
    /// Number of forks.
    pub fork_total: u64,
    /// Number of snapshots.
    pub snapshot_total: u64,
}

impl View for Metrics {
    type V = MetricsView;

    closed spec fn view(&self) -> MetricsView {
        MetricsView {
            vm_count: prom::gauge(self.vm_count).2,
            vm_memory: prom::gauge_family(self.vm_memory).3,
            fork_durations: self.fork_duration.contents().2,
            branch_durations: self.branch_duration.contents().2,
            snapshot_durations: self.snapshot_duration.contents().2,
            http_requests: prom::counter_family(self.http_requests).3,
            fork_total: prom::counter(self.fork_total).2,
            snapshot_total: prom::counter(self.snapshot_total).2,
        }
    }
}

/// Metrics of a daemon that has done nothing yet.
pub open spec fn no_metrics() -> MetricsView {
    MetricsView {
        vm_count: 0,
        vm_memory: Map::empty(),
        fork_durations: Seq::empty(),
        branch_durations: Seq::empty(),
        snapshot_durations: Seq::empty(),
        http_requests: Map::empty(),
        fork_total: 0,
        snapshot_total: 0,
    }
}

/// The metrics' own text: each metric with its name and help text.
pub open spec fn exposed(m: MetricsView) -> Seq<char> {
    prom::exposition(
        seq![("clone_vms_total"@, "Number of VMs currently tracked by the daemon"@, m.vm_count)],
        seq![
            ("clone_fork_total"@, "Total number of fork operations"@, m.fork_total),
            ("clone_snapshot_total"@, "Total number of snapshot operations"@, m.snapshot_total),
        ],
        seq![
            (
                "clone_fork_duration_seconds"@,
                "Time spent forking a VM from a template"@,
                m.fork_durations,
            ),
            (
                "clone_branch_duration_seconds"@,
                "Time spent live-branching a VM (UFFD_WP based)"@,
                m.branch_durations,
            ),
            (
                "clone_snapshot_duration_seconds"@,
                "Time spent snapshotting a VM"@,
                m.snapshot_durations,
            ),
        ],
        seq![
            (
                "clone_vm_memory_bytes"@,
                "Memory usage of a single VM in bytes"@,
                seq!["vm_id"@],
                m.vm_memory,
            ),
        ],
        seq![
            (
                "clone_http_requests_total"@,
                "Number of HTTP requests served"@,
                seq!["method"@, "path"@, "status"@],
                m.http_requests,
            ),
        ],
        seq![],
    )
}

proof fn lemma_metric_names()
    ensures
        prom::plain_name("clone_vms_total"@),
        prom::plain_name("clone_vm_memory_bytes"@),
        prom::plain_name("clone_fork_duration_seconds"@),
        prom::plain_name("clone_branch_duration_seconds"@),
        prom::plain_name("clone_snapshot_duration_seconds"@),
        prom::plain_name("clone_http_requests_total"@),
        prom::plain_name("clone_fork_total"@),
        prom::plain_name("clone_snapshot_total"@),
{
    reveal_strlit("clone_vms_total");
    reveal_strlit("clone_vm_memory_bytes");
    reveal_strlit("clone_fork_duration_seconds");
    reveal_strlit("clone_branch_duration_seconds");
    reveal_strlit("clone_snapshot_duration_seconds");
    reveal_strlit("clone_http_requests_total");
    reveal_strlit("clone_fork_total");
    reveal_strlit("clone_snapshot_total");
    reveal_with_fuel(prom::name_chars, 33);
}

proof fn lemma_label_names()
    ensures
        prom::plain_name("vm_id"@),
        prom::plain_name("method"@),
        prom::plain_name("path"@),
        prom::plain_name("status"@),
        "method"@ != "path"@,
        "method"@ != "status"@,
        "path"@ != "status"@,
{
    reveal_strlit("vm_id");
    reveal_strlit("method");
    reveal_strlit("path");
    reveal_strlit("status");
    reveal_with_fuel(prom::name_chars, 8);
    assert("method"@[0] != "status"@[0]);
}

proof fn lemma_help_texts()
    ensures
        "Number of VMs currently tracked by the daemon"@.len() > 0,
        "Memory usage of a single VM in bytes"@.len() > 0,
        "Time spent forking a VM from a template"@.len() > 0,
        "Time spent live-branching a VM (UFFD_WP based)"@.len() > 0,
        "Time spent snapshotting a VM"@.len() > 0,
        "Number of HTTP requests served"@.len() > 0,
        "Total number of fork operations"@.len() > 0,
        "Total number of snapshot operations"@.len() > 0,
{
    reveal_strlit("Number of VMs currently tracked by the daemon");
    reveal_strlit("Memory usage of a single VM in bytes");
    reveal_strlit("Time spent forking a VM from a template");
    reveal_strlit("Time spent live-branching a VM (UFFD_WP based)");
    reveal_strlit("Time spent snapshotting a VM");
    reveal_strlit("Number of HTTP requests served");
    reveal_strlit("Total number of fork operations");
    reveal_strlit("Total number of snapshot operations");
}

impl Metrics {
    #[verifier::type_invariant]
    spec fn wf(self) -> bool {
        &&& prom::gauge(self.vm_count).0 == "clone_vms_total"@
        &&& prom::gauge(self.vm_count).1 == "Number of VMs currently tracked by the daemon"@
        &&& prom::gauge_family(self.vm_memory).0 == "clone_vm_memory_bytes"@
        &&& prom::gauge_family(self.vm_memory).1 == "Memory usage of a single VM in bytes"@
        &&& prom::gauge_family(self.vm_memory).2 == seq!["vm_id"@]
        &&& self.fork_duration.contents().0 == "clone_fork_duration_seconds"@
        &&& self.fork_duration.contents().1 == "Time spent forking a VM from a template"@
        &&& self.branch_duration.contents().0 == "clone_branch_duration_seconds"@
        &&& self.branch_duration.contents().1 == "Time spent live-branching a VM (UFFD_WP based)"@
        &&& self.snapshot_duration.contents().0 == "clone_snapshot_duration_seconds"@
        &&& self.snapshot_duration.contents().1 == "Time spent snapshotting a VM"@
        &&& prom::counter_family(self.http_requests).0 == "clone_http_requests_total"@
        &&& prom::counter_family(self.http_requests).1 == "Number of HTTP requests served"@
        &&& prom::counter_family(self.http_requests).2 == seq!["method"@, "path"@, "status"@]
        &&& prom::counter(self.fork_total).0 == "clone_fork_total"@
        &&& prom::counter(self.fork_total).1 == "Total number of fork operations"@
        &&& prom::counter(self.snapshot_total).0 == "clone_snapshot_total"@
        &&& prom::counter(self.snapshot_total).1 == "Total number of snapshot operations"@
    }
}

/// The metrics of a daemon that has done nothing yet.
pub fn registry() -> (m: Metrics)
    ensures
        m@ == no_metrics(),
{
    proof {
        lemma_metric_names();
        lemma_label_names();
        lemma_help_texts();
    }
    let vm_labels: [&str; 1] = ["vm_id"];
    let http_labels: [&str; 3] = ["method", "path", "status"];
    assert(prom::texts(vm_labels@) =~= seq!["vm_id"@]);
    assert(prom::texts(http_labels@) =~= seq!["method"@, "path"@, "status"@]);
    let m = Metrics {
        vm_count: new_gauge(
            "clone_vms_total",
            "Number of VMs currently tracked by the daemon",
        ).unwrap(),
        vm_memory: new_gauge_family(
            "clone_vm_memory_bytes",
            "Memory usage of a single VM in bytes",
            &vm_labels,
        ).unwrap(),
        fork_duration: new_histogram(
            "clone_fork_duration_seconds",
            "Time spent forking a VM from a template",
        ).unwrap(),
        branch_duration: new_histogram(
            "clone_branch_duration_seconds",
            "Time spent live-branching a VM (UFFD_WP based)",
        ).unwrap(),
        snapshot_duration: new_histogram(
            "clone_snapshot_duration_seconds",
            "Time spent snapshotting a VM",
        ).unwrap(),
        http_requests: new_counter_family(
            "clone_http_requests_total",
            "Number of HTTP requests served",
            &http_labels,
        ).unwrap(),
        fork_total: new_counter("clone_fork_total", "Total number of fork operations").unwrap(),
        snapshot_total: new_counter(
            "clone_snapshot_total",
            "Total number of snapshot operations",
        ).unwrap(),
    };
    m
}

/// Sets the number of guests tracked.
pub fn set_vm_count(m: &mut Metrics, n: i64)
    ensures
        final(m)@ == (MetricsView { vm_count: n, ..old(m)@ }),
{
    proof {
        use_type_invariant(&*m);
    }
    set_gauge(&mut m.vm_count, n);
}

/// Sets the memory that a guest uses.
pub fn set_vm_memory(m: &mut Metrics, vm_id: &str, bytes: u64)
    ensures
        final(m)@ == (MetricsView {
            vm_memory: prom::with_value(old(m)@.vm_memory, seq![vm_id@], bytes),
            ..old(m)@
        }),
{
    proof {
        use_type_invariant(&*m);
    }
    let values: [&str; 1] = [vm_id];
    assert(prom::texts(values@) =~= seq![vm_id@]);
    set_labelled(&mut m.vm_memory, &values, bytes);
}

/// Drops the memory of a guest that is gone.
pub fn remove_vm_memory(m: &mut Metrics, vm_id: &str)
    ensures
        final(m)@ == (MetricsView {
            vm_memory: old(m)@.vm_memory.remove(prom::label_slot(seq![vm_id@])),
            ..old(m)@
        }),
{
    proof {
        use_type_invariant(&*m);
    }
    let values: [&str; 1] = [vm_id];
    assert(prom::texts(values@) =~= seq![vm_id@]);
    remove_labelled(&mut m.vm_memory, &values);
}

/// Records a fork and how long it took.
pub fn observe_fork_duration(m: &mut Metrics, nanos: u64)
    ensures
        final(m)@ == (MetricsView {
            fork_durations: old(m)@.fork_durations.push(nanos),
            fork_total: prom::next(old(m)@.fork_total),
            ..old(m)@
        }),
{
    proof {
        use_type_invariant(&*m);
    }
    observe(&mut m.fork_duration, nanos);
    inc_counter(&mut m.fork_total);
}

/// Records how long a branch took.
pub fn observe_branch_duration(m: &mut Metrics, nanos: u64)
    ensures
        final(m)@ == (MetricsView {
            branch_durations: old(m)@.branch_durations.push(nanos),
            ..old(m)@
        }),
{
    proof {
        use_type_invariant(&*m);
    }
    observe(&mut m.branch_duration, nanos);
}

/// Records a snapshot and how long it took.
pub fn observe_snapshot_duration(m: &mut Metrics, nanos: u64)
    ensures
        final(m)@ == (MetricsView {
            snapshot_durations: old(m)@.snapshot_durations.push(nanos),
            snapshot_total: prom::next(old(m)@.snapshot_total),
            ..old(m)@
        }),
{
    proof {
        use_type_invariant(&*m);
    }
    observe(&mut m.snapshot_duration, nanos);
    inc_counter(&mut m.snapshot_total);
}

/// Counts an HTTP request by method, path and status.
pub fn inc_http_request(m: &mut Metrics, method: &str, path: &str, status: u16)
    ensures
        ({
            let labels = seq![method@, path@, text::decimal(status as nat)];
            final(m)@ == (MetricsView {
                http_requests: prom::with_value(
                    old(m)@.http_requests,
                    labels,
                    prom::next(prom::value_in(old(m)@.http_requests, labels)),
                ),
                ..old(m)@
            })
        }),
{
    proof {
        use_type_invariant(&*m);
    }
    let status_text = decimal_string(status as u64);
    let values: [&str; 3] = [method, path, status_text.as_str()];
    assert(prom::texts(values@) =~= seq![method@, path@, text::decimal(status as nat)]);
    inc_labelled(&mut m.http_requests, &values);
}

/// All metrics in the Prometheus text format.
pub fn render(m: &Metrics) -> (s: String)
    ensures
        s@ == exposed(m@),
{
    proof {
        use_type_invariant(m);
    }
    let gauges: [&Gauge; 1] = [&m.vm_count];
    let counters: [&Counter; 2] = [&m.fork_total, &m.snapshot_total];
    let histograms: [&DurationHistogram; 3] = [
        &m.fork_duration,
        &m.branch_duration,
        &m.snapshot_duration,
    ];
    let gauge_families: [&GaugeFamily; 1] = [&m.vm_memory];
    let counter_families: [&CounterFamily; 1] = [&m.http_requests];
    let histogram_families: [&HistogramFamily; 0] = [];
    proof {
        let x = m@;
        assert(prom::gauges_of(gauges@) =~= seq![
            ("clone_vms_total"@, "Number of VMs currently tracked by the daemon"@, x.vm_count),
        ]);
        assert(prom::counters_of(counters@) =~= seq![
            ("clone_fork_total"@, "Total number of fork operations"@, x.fork_total),
            ("clone_snapshot_total"@, "Total number of snapshot operations"@, x.snapshot_total),
        ]);
        assert(prom::histograms_of(histograms@) =~= seq![
            (
                "clone_fork_duration_seconds"@,
                "Time spent forking a VM from a template"@,
                x.fork_durations,
            ),
            (
                "clone_branch_duration_seconds"@,
                "Time spent live-branching a VM (UFFD_WP based)"@,
                x.branch_durations,
            ),
            (
                "clone_snapshot_duration_seconds"@,
                "Time spent snapshotting a VM"@,
                x.snapshot_durations,
            ),
        ]);
        assert(prom::gauge_families_of(gauge_families@) =~= seq![
            (
                "clone_vm_memory_bytes"@,
                "Memory usage of a single VM in bytes"@,
                seq!["vm_id"@],
                x.vm_memory,
            ),
        ]);
        assert(prom::counter_families_of(counter_families@) =~= seq![
            (
                "clone_http_requests_total"@,
                "Number of HTTP requests served"@,
                seq!["method"@, "path"@, "status"@],
                x.http_requests,
            ),
        ]);
        assert(prom::histogram_families_of(histogram_families@) =~= seq![]);
    }
    match gather_and_encode(
        &gauges,
        &counters,
        &histograms,
        &gauge_families,
        &counter_families,
        &histogram_families,
    ) {
        Some(s) => s,
        None => String::new(),
    }
}

/// A guest's memory that was set and then dropped leaves no trace.
pub proof fn lemma_memory_set_and_dropped(slots: Map<u64, (Seq<Seq<char>>, u64)>, vm_id: Seq<char>, n: u64)
    requires
        !slots.dom().contains(prom::label_slot(seq![vm_id])),
    ensures
        prom::with_value(slots, seq![vm_id], n).remove(prom::label_slot(seq![vm_id])) == slots,
{
    assert(prom::with_value(slots, seq![vm_id], n).remove(prom::label_slot(seq![vm_id])) =~= slots);
}

} // verus!
