//! Metrics of the controller in the Prometheus format.
use vstd::prelude::*;

use crate::prom;
use crate::prom::{
    dec_gauge, gather_and_encode, inc_gauge, inc_labelled, new_counter_family, new_gauge,
    new_gauge_family, new_histogram_family, observe_labelled, set_gauge, set_labelled,
    Counter, CounterFamily, Gauge, GaugeFamily, DurationHistogram, HistogramFamily,
};

verus! {

/// All metrics of the controller.
pub struct ControllerMetrics {
    tenants_total: Gauge,
    vms_by_status: GaugeFamily,
    reclaim_total: CounterFamily,
    acquire_duration: HistogramFamily,
    acquire_errors: CounterFamily,
}

/// What the metrics say.
pub struct ControllerMetricsView {
    /// Number of tenants.
    pub tenants_total: i64,
    /// Guests in each status, by the slot of the status.
    pub vms_by_status: Map<u64, (Seq<Seq<char>>, u64)>,
    /// Reclaims, by the slot of their kind.
    pub reclaim_total: Map<u64, (Seq<Seq<char>>, u64)>,
    /// How long acquiring took, by the slot of the outcome.
    pub acquire_duration: Map<u64, (Seq<Seq<char>>, Seq<u64>)>,
    /// Failures to acquire, by the slot of the outcome.
    pub acquire_errors: Map<u64, (Seq<Seq<char>>, u64)>,
}

impl View for ControllerMetrics {
    type V = ControllerMetricsView;

    closed spec fn view(&self) -> ControllerMetricsView {
        ControllerMetricsView {
            tenants_total: prom::gauge(self.tenants_total).2,
            vms_by_status: prom::gauge_family(self.vms_by_status).3,
            reclaim_total: prom::counter_family(self.reclaim_total).3,
            acquire_duration: prom::histogram_family(self.acquire_duration).4,
            acquire_errors: prom::counter_family(self.acquire_errors).3,
        }
    }
}

/// Metrics of a controller that has done nothing yet.
pub open spec fn no_metrics() -> ControllerMetricsView {
    ControllerMetricsView {
        tenants_total: 0,
        vms_by_status: Map::empty(),
        reclaim_total: Map::empty(),
        acquire_duration: Map::empty(),
        acquire_errors: Map::empty(),
    }
}

/// The bounds of the buckets for acquire durations, in milliseconds.
pub open spec fn acquire_bounds() -> Seq<u64> {
    seq![50u64, 100, 250, 500, 1000, 2500, 5000, 10000, 30000]
}

/// The text in which the metrics are exposed, each with its name and help text.
pub open spec fn exposed(m: ControllerMetricsView) -> Seq<char> {
    prom::exposition(
        seq![("clone_controller_tenants_total"@, "Total tenants registered"@, m.tenants_total)],
        seq![],
        seq![],
        seq![
            (
                "clone_controller_vms_by_status"@,
                "VMs in each lifecycle status"@,
                seq!["status"@],
                m.vms_by_status,
            ),
        ],
        seq![
            (
                "clone_controller_reclaim_total"@,
                "Reclaim operations triggered"@,
                seq!["type"@],
                m.reclaim_total,
            ),
            (
                "clone_controller_acquire_errors_total"@,
                "Failed acquire calls"@,
                seq!["reason"@],
                m.acquire_errors,
            ),
        ],
        seq![
            (
                "clone_controller_acquire_duration_seconds"@,
                "Time spent in /v1/acquire"@,
                seq!["outcome"@],
                acquire_bounds(),
                m.acquire_duration,
            ),
        ],
    )
}

impl ControllerMetrics {
    #[verifier::type_invariant]
    spec fn wf(self) -> bool {
        &&& prom::gauge(self.tenants_total).0 == "clone_controller_tenants_total"@
        &&& prom::gauge(self.tenants_total).1 == "Total tenants registered"@
        &&& prom::gauge_family(self.vms_by_status).0 == "clone_controller_vms_by_status"@
        &&& prom::gauge_family(self.vms_by_status).1 == "VMs in each lifecycle status"@
        &&& prom::gauge_family(self.vms_by_status).2 == seq!["status"@]
        &&& prom::counter_family(self.reclaim_total).0 == "clone_controller_reclaim_total"@
        &&& prom::counter_family(self.reclaim_total).1 == "Reclaim operations triggered"@
        &&& prom::counter_family(self.reclaim_total).2 == seq!["type"@]
        &&& prom::histogram_family(self.acquire_duration).0
            == "clone_controller_acquire_duration_seconds"@
        &&& prom::histogram_family(self.acquire_duration).1 == "Time spent in /v1/acquire"@
        &&& prom::histogram_family(self.acquire_duration).2 == seq!["outcome"@]
        &&& prom::histogram_family(self.acquire_duration).3 == acquire_bounds()
        &&& prom::counter_family(self.acquire_errors).0 == "clone_controller_acquire_errors_total"@
        &&& prom::counter_family(self.acquire_errors).1 == "Failed acquire calls"@
        &&& prom::counter_family(self.acquire_errors).2 == seq!["reason"@]
    }
}

proof fn lemma_names()
    ensures
        prom::plain_name("clone_controller_tenants_total"@),
        prom::plain_name("clone_controller_vms_by_status"@),
        prom::plain_name("clone_controller_reclaim_total"@),
        prom::plain_name("clone_controller_acquire_duration_seconds"@),
        prom::plain_name("clone_controller_acquire_errors_total"@),
        prom::plain_name("status"@),
        prom::plain_name("type"@),
        prom::plain_name("outcome"@),
        prom::plain_name("reason"@),
        "outcome"@ != "le"@,
{
    reveal_strlit("clone_controller_tenants_total");
    reveal_strlit("clone_controller_vms_by_status");
    reveal_strlit("clone_controller_reclaim_total");
    reveal_strlit("clone_controller_acquire_duration_seconds");
    reveal_strlit("clone_controller_acquire_errors_total");
    reveal_strlit("status");
    reveal_strlit("type");
    reveal_strlit("outcome");
    reveal_strlit("reason");
    reveal_strlit("le");
    reveal_with_fuel(prom::name_chars, 43);
}

proof fn lemma_help_texts()
    ensures
        "Total tenants registered"@.len() > 0,
        "VMs in each lifecycle status"@.len() > 0,
        "Reclaim operations triggered"@.len() > 0,
        "Time spent in /v1/acquire"@.len() > 0,
        "Failed acquire calls"@.len() > 0,
{
    reveal_strlit("Total tenants registered");
    reveal_strlit("VMs in each lifecycle status");
    reveal_strlit("Reclaim operations triggered");
    reveal_strlit("Time spent in /v1/acquire");
    reveal_strlit("Failed acquire calls");
}

/// The metrics of a controller that has done nothing yet.
pub fn new_metrics() -> (m: ControllerMetrics)
    ensures
        m@ == no_metrics(),
{
    proof {
        lemma_names();
        lemma_help_texts();
    }
    let status: [&str; 1] = ["status"];
    let kind: [&str; 1] = ["type"];
    let outcome: [&str; 1] = ["outcome"];
    let reason: [&str; 1] = ["reason"];
    let bounds: [u64; 9] = [50, 100, 250, 500, 1000, 2500, 5000, 10000, 30000];
    assert(prom::texts(status@) =~= seq!["status"@]);
    assert(prom::texts(kind@) =~= seq!["type"@]);
    assert(prom::texts(outcome@) =~= seq!["outcome"@]);
    assert(prom::texts(reason@) =~= seq!["reason"@]);
    assert(bounds@ =~= acquire_bounds());
    ControllerMetrics {
        tenants_total: new_gauge(
            "clone_controller_tenants_total",
            "Total tenants registered",
        ).unwrap(),
        vms_by_status: new_gauge_family(
            "clone_controller_vms_by_status",
            "VMs in each lifecycle status",
            &status,
        ).unwrap(),
        reclaim_total: new_counter_family(
            "clone_controller_reclaim_total",
            "Reclaim operations triggered",
            &kind,
        ).unwrap(),
        acquire_duration: new_histogram_family(
            "clone_controller_acquire_duration_seconds",
            "Time spent in /v1/acquire",
            &outcome,
            &bounds,
        ).unwrap(),
        acquire_errors: new_counter_family(
            "clone_controller_acquire_errors_total",
            "Failed acquire calls",
            &reason,
        ).unwrap(),
    }
}

/// The gauge after one more.
pub open spec fn gauge_up(n: i64) -> i64 {
    if n == i64::MAX {
        i64::MIN
    } else {
        (n + 1) as i64
    }
}

/// The gauge after one less.
pub open spec fn gauge_down(n: i64) -> i64 {
    if n == i64::MIN {
        i64::MAX
    } else {
        (n - 1) as i64
    }
}

/// Counts a tenant that was registered.
pub fn tenant_added(m: &mut ControllerMetrics)
    ensures
        final(m)@ == (ControllerMetricsView {
            tenants_total: gauge_up(old(m)@.tenants_total),
            ..old(m)@
        }),
{
    proof {
        use_type_invariant(&*m);
    }
    inc_gauge(&mut m.tenants_total);
}

/// Counts a tenant that was deleted.
pub fn tenant_removed(m: &mut ControllerMetrics)
    ensures
        final(m)@ == (ControllerMetricsView {
            tenants_total: gauge_down(old(m)@.tenants_total),
            ..old(m)@
        }),
{
    proof {
        use_type_invariant(&*m);
    }
    dec_gauge(&mut m.tenants_total);
}

/// Sets the number of tenants.
pub fn set_tenants_total(m: &mut ControllerMetrics, n: i64)
    ensures
        final(m)@ == (ControllerMetricsView { tenants_total: n, ..old(m)@ }),
{
    proof {
        use_type_invariant(&*m);
    }
    set_gauge(&mut m.tenants_total, n);
}

fn set_status(m: &mut ControllerMetrics, status: &str, n: u64)
    ensures
        final(m)@ == (ControllerMetricsView {
            vms_by_status: prom::with_value(old(m)@.vms_by_status, seq![status@], n),
            ..old(m)@
        }),
{
    proof {
        use_type_invariant(&*m);
    }
    let values: [&str; 1] = [status];
    assert(prom::texts(values@) =~= seq![status@]);
    set_labelled(&mut m.vms_by_status, &values, n);
}

/// The slots after each status was given its number of guests.
pub open spec fn status_counts(
    slots: Map<u64, (Seq<Seq<char>>, u64)>,
    active: u64,
    soft: u64,
    saved: u64,
    starting: u64,
    failed: u64,
    not_found: u64,
) -> Map<u64, (Seq<Seq<char>>, u64)> {
    let a = prom::with_value(slots, seq!["active"@], active);
    let b = prom::with_value(a, seq!["soft_reclaimed"@], soft);
    let c = prom::with_value(b, seq!["saved"@], saved);
    let d = prom::with_value(c, seq!["starting"@], starting);
    let e = prom::with_value(d, seq!["failed"@], failed);
    prom::with_value(e, seq!["not_found"@], not_found)
}

/// Sets the number of guests in each status.
pub fn refresh_status_counts(
    m: &mut ControllerMetrics,
    active: u64,
    soft: u64,
    saved: u64,
    starting: u64,
    failed: u64,
    not_found: u64,
)
    ensures
        final(m)@ == (ControllerMetricsView {
            vms_by_status: status_counts(
                old(m)@.vms_by_status,
                active,
                soft,
                saved,
                starting,
                failed,
                not_found,
            ),
            ..old(m)@
        }),
{
    set_status(m, "active", active);
    set_status(m, "soft_reclaimed", soft);
    set_status(m, "saved", saved);
    set_status(m, "starting", starting);
    set_status(m, "failed", failed);
    set_status(m, "not_found", not_found);
}

/// Counts a reclaim of the given kind.
pub fn count_reclaim(m: &mut ControllerMetrics, kind: &str)
    ensures
        final(m)@ == (ControllerMetricsView {
            reclaim_total: prom::counted(old(m)@.reclaim_total, seq![kind@]),
            ..old(m)@
        }),
{
    proof {
        use_type_invariant(&*m);
    }
    let values: [&str; 1] = [kind];
    assert(prom::texts(values@) =~= seq![kind@]);
    inc_labelled(&mut m.reclaim_total, &values);
}

/// Records how long acquiring with the given outcome took.
pub fn observe_acquire(m: &mut ControllerMetrics, outcome: &str, nanos: u64)
    ensures
        final(m)@ == (ControllerMetricsView {
            acquire_duration: prom::with_observation(
                old(m)@.acquire_duration,
                seq![outcome@],
                nanos,
            ),
            ..old(m)@
        }),
{
    proof {
        use_type_invariant(&*m);
        lemma_names();
    }
    let values: [&str; 1] = [outcome];
    assert(prom::texts(values@) =~= seq![outcome@]);
    observe_labelled(&mut m.acquire_duration, &values, nanos);
}

/// Counts a failure to acquire with the given outcome.
pub fn count_acquire_error(m: &mut ControllerMetrics, outcome: &str)
    ensures
        final(m)@ == (ControllerMetricsView {
            acquire_errors: prom::counted(old(m)@.acquire_errors, seq![outcome@]),
            ..old(m)@
        }),
{
    proof {
        use_type_invariant(&*m);
    }
    let values: [&str; 1] = [outcome];
    assert(prom::texts(values@) =~= seq![outcome@]);
    inc_labelled(&mut m.acquire_errors, &values);
}

/// All metrics in the Prometheus text format.
pub fn render(m: &ControllerMetrics) -> (s: String)
    ensures
        s@ == exposed(m@),
{
    proof {
        use_type_invariant(m);
    }
    let gauges: [&Gauge; 1] = [&m.tenants_total];
    let counters: [&Counter; 0] = [];
    let histograms: [&DurationHistogram; 0] = [];
    let gauge_families: [&GaugeFamily; 1] = [&m.vms_by_status];
    let counter_families: [&CounterFamily; 2] = [&m.reclaim_total, &m.acquire_errors];
    let histogram_families: [&HistogramFamily; 1] = [&m.acquire_duration];
    proof {
        let x = m@;
        assert(prom::gauges_of(gauges@) =~= seq![
            ("clone_controller_tenants_total"@, "Total tenants registered"@, x.tenants_total),
        ]);
        assert(prom::counters_of(counters@) =~= seq![]);
        assert(prom::histograms_of(histograms@) =~= seq![]);
        assert(prom::gauge_families_of(gauge_families@) =~= seq![
            (
                "clone_controller_vms_by_status"@,
                "VMs in each lifecycle status"@,
                seq!["status"@],
                x.vms_by_status,
            ),
        ]);
        assert(prom::counter_families_of(counter_families@) =~= seq![
            (
                "clone_controller_reclaim_total"@,
                "Reclaim operations triggered"@,
                seq!["type"@],
                x.reclaim_total,
            ),
            (
                "clone_controller_acquire_errors_total"@,
                "Failed acquire calls"@,
                seq!["reason"@],
                x.acquire_errors,
            ),
        ]);
        assert(prom::histogram_families_of(histogram_families@) =~= seq![
            (
                "clone_controller_acquire_duration_seconds"@,
                "Time spent in /v1/acquire"@,
                seq!["outcome"@],
                acquire_bounds(),
                x.acquire_duration,
            ),
        ]);
    }
    match gather_and_encode(
        &gauges,
        &counters,
        &histograms,
        &gauge_families,
        &counter_families,
        &histogram_families,
    ) {
        Some(s) => s,
        None => String::new(),
    }
}

} // verus!
