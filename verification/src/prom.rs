//! Gauges, counters and histograms of the `prometheus` crate.
//!
//! The metrics are held as values: each has a name, a help text and contents,
//! and is changed through a mutable reference only.
use vstd::prelude::*;

verus! {

/// A single gauge.
#[verifier::external_body]
pub struct Gauge {
    inner: prometheus::IntGauge,
}

/// A family of gauges, told apart by labels.
#[verifier::external_body]
pub struct GaugeFamily {
    inner: prometheus::core::GenericGaugeVec<prometheus::core::AtomicU64>,
}

/// A single counter.
#[verifier::external_body]
pub struct Counter {
    inner: prometheus::IntCounter,
}

/// A family of counters, told apart by labels.
#[verifier::external_body]
pub struct CounterFamily {
    inner: prometheus::IntCounterVec,
}

/// A family of histograms, told apart by labels.
#[verifier::external_body]
pub struct HistogramFamily {
    inner: prometheus::HistogramVec,
}

/// The histogram of the `prometheus` crate.
#[verifier::external_type_specification]
#[verifier::external_body]
pub struct ExHistogram(prometheus::Histogram);

/// A single histogram. Nothing else holds on to the one inside.
pub struct DurationHistogram {
    inner: prometheus::Histogram,
}

impl DurationHistogram {
    /// The histogram's name, help text and the durations it observed.
    pub closed spec fn contents(self) -> (Seq<char>, Seq<char>, Seq<u64>) {
        histogram(self.inner)
    }
}

/// A gauge's name, help text and value.
pub uninterp spec fn gauge(g: Gauge) -> (Seq<char>, Seq<char>, i64);

/// A counter's name, help text and value.
pub uninterp spec fn counter(c: Counter) -> (Seq<char>, Seq<char>, u64);

/// A histogram's name, help text and the durations it observed, in nanoseconds
/// and in order. Its buckets are the default ones.
pub uninterp spec fn histogram(h: prometheus::Histogram) -> (Seq<char>, Seq<char>, Seq<u64>);

/// A gauge family's name, help text, label names, and its gauges: in each slot
/// the label values with which the gauge was made, and its value.
pub uninterp spec fn gauge_family(f: GaugeFamily) -> (
    Seq<char>,
    Seq<char>,
    Seq<Seq<char>>,
    Map<u64, (Seq<Seq<char>>, u64)>,
);

/// A counter family's name, help text, label names, and its counters: in each
/// slot the label values with which the counter was made, and its value.
pub uninterp spec fn counter_family(f: CounterFamily) -> (
    Seq<char>,
    Seq<char>,
    Seq<Seq<char>>,
    Map<u64, (Seq<Seq<char>>, u64)>,
);

/// A histogram family's name, help text, label names, bucket bounds in
/// milliseconds, and its histograms: in each slot the label values with which the
/// histogram was made, and the durations it observed.
pub uninterp spec fn histogram_family(f: HistogramFamily) -> (
    Seq<char>,
    Seq<char>,
    Seq<Seq<char>>,
    Seq<u64>,
    Map<u64, (Seq<Seq<char>>, Seq<u64>)>,
);

/// The slot of a family in which label values are kept: the FNV hash of the
/// values' bytes one after the other.
pub uninterp spec fn label_slot(values: Seq<Seq<char>>) -> u64;

/// `c` may begin a name.
pub open spec fn name_start(c: char) -> bool {
    ('a' <= c && c <= 'z') || ('A' <= c && c <= 'Z') || c == '_'
}

/// The first `n` characters of `s` may begin a name.
pub open spec fn name_chars(s: Seq<char>, n: nat) -> bool
    decreases n,
{
    n == 0 || (name_chars(s, (n - 1) as nat) && (name_start(s[n - 1]) || (n > 1 && '0' <= s[n - 1]
        && s[n - 1] <= '9')))
}

/// `s` is made of ASCII letters, digits and underscores, is not empty, and does
/// not begin with a digit.
pub open spec fn plain_name(s: Seq<char>) -> bool {
    s.len() > 0 && name_chars(s, s.len())
}

/// The characters of each piece of text.
pub open spec fn texts(s: Seq<&str>) -> Seq<Seq<char>> {
    s.map_values(|t: &str| t@)
}

/// Plain names, each once.
pub open spec fn plain_labels(labels: Seq<&str>) -> bool {
    &&& forall|i: int| 0 <= i < labels.len() ==> plain_name((#[trigger] labels[i])@)
    &&& forall|i: int, j: int|
        0 <= i < j < labels.len() ==> (#[trigger] labels[i])@ != (#[trigger] labels[j])@
}

/// Calls `prometheus::IntGauge::new`, which makes a gauge with value zero. It
/// succeeds for a plain name and a help text that is not empty.
#[verifier::external_body]
pub(crate) fn new_gauge(name: &str, help: &str) -> (r: Option<Gauge>)
    ensures
        plain_name(name@) && help@.len() > 0 ==> r is Some,
        r is Some ==> gauge(r->0) == (name@, help@, 0i64),
{
    prometheus::IntGauge::new(name, help).ok().map(|inner| Gauge { inner })
}

/// Calls `prometheus::IntCounter::new`, which makes a counter with value zero.
/// It succeeds for a plain name and a help text that is not empty.
#[verifier::external_body]
pub(crate) fn new_counter(name: &str, help: &str) -> (r: Option<Counter>)
    ensures
        plain_name(name@) && help@.len() > 0 ==> r is Some,
        r is Some ==> counter(r->0) == (name@, help@, 0u64),
{
    prometheus::IntCounter::new(name, help).ok().map(|inner| Counter { inner })
}

/// Calls `prometheus::Histogram::with_opts` with the default buckets, which
/// makes a histogram without observations. It succeeds for a plain name and a
/// help text that is not empty.
#[verifier::external_body]
fn with_opts(name: &str, help: &str) -> (r: Option<prometheus::Histogram>)
    ensures
        plain_name(name@) && help@.len() > 0 ==> r is Some,
        r is Some ==> histogram(r->0) == (name@, help@, Seq::<u64>::empty()),
{
    prometheus::Histogram::with_opts(prometheus::HistogramOpts::new(name, help)).ok()
}

/// A histogram without observations. It can be made for a plain name and a help
/// text that is not empty.
pub(crate) fn new_histogram(name: &str, help: &str) -> (r: Option<DurationHistogram>)
    ensures
        plain_name(name@) && help@.len() > 0 ==> r is Some,
        r is Some ==> r->0.contents() == (name@, help@, Seq::<u64>::empty()),
{
    match with_opts(name, help) {
        Some(inner) => Some(DurationHistogram { inner }),
        None => None,
    }
}

/// Calls `GenericGaugeVec::new`, which makes a family without gauges. It
/// succeeds for plain names and a help text that is not empty.
#[verifier::external_body]
pub(crate) fn new_gauge_family(name: &str, help: &str, labels: &[&str]) -> (r: Option<GaugeFamily>)
    ensures
        plain_name(name@) && plain_labels(labels@) && help@.len() > 0 ==> r is Some,
        r is Some ==> gauge_family(r->0) == (
            name@,
            help@,
            texts(labels@),
            Map::<u64, (Seq<Seq<char>>, u64)>::empty(),
        ),
{
    let opts = prometheus::Opts::new(name, help);
    prometheus::core::GenericGaugeVec::new(opts, labels).ok().map(|inner| GaugeFamily { inner })
}

/// Calls `prometheus::IntCounterVec::new`, which makes a family without
/// counters. It succeeds for plain names and a help text that is not empty.
#[verifier::external_body]
pub(crate) fn new_counter_family(name: &str, help: &str, labels: &[&str]) -> (r: Option<
    CounterFamily,
>)
    ensures
        plain_name(name@) && plain_labels(labels@) && help@.len() > 0 ==> r is Some,
        r is Some ==> counter_family(r->0) == (
            name@,
            help@,
            texts(labels@),
            Map::<u64, (Seq<Seq<char>>, u64)>::empty(),
        ),
{
    let opts = prometheus::Opts::new(name, help);
    prometheus::IntCounterVec::new(opts, labels).ok().map(|inner| CounterFamily { inner })
}

/// Calls `prometheus::HistogramVec::new` with bucket bounds given in
/// milliseconds, which makes a family without histograms. It succeeds for plain
/// names and a help text that is not empty; the bounds are looked at when a
/// histogram of the family is first used.
#[verifier::external_body]
pub(crate) fn new_histogram_family(name: &str, help: &str, labels: &[&str], bounds_ms: &[u64]) -> (r:
    Option<HistogramFamily>)
    ensures
        plain_name(name@) && plain_labels(labels@) && help@.len() > 0 ==> r is Some,
        r is Some ==> histogram_family(r->0) == (
            name@,
            help@,
            texts(labels@),
            bounds_ms@,
            Map::<u64, (Seq<Seq<char>>, Seq<u64>)>::empty(),
        ),
{
    let seconds = bounds_ms.iter().map(|m| std::time::Duration::from_millis(*m).as_secs_f64());
    let opts = prometheus::HistogramOpts::new(name, help).buckets(seconds.collect());
    prometheus::HistogramVec::new(opts, labels).ok().map(|inner| HistogramFamily { inner })
}

/// Calls `IntGauge::set`, after which the gauge has the value `n`.
#[verifier::external_body]
pub(crate) fn set_gauge(g: &mut Gauge, n: i64)
    ensures
        gauge(*final(g)) == (gauge(*old(g)).0, gauge(*old(g)).1, n),
    no_unwind
{
    g.inner.set(n)
}

/// Calls `IntGauge::inc`, which adds one and goes on at the least value after
/// the greatest.
#[verifier::external_body]
pub(crate) fn inc_gauge(g: &mut Gauge)
    ensures
        gauge(*final(g)) == (
            gauge(*old(g)).0,
            gauge(*old(g)).1,
            if gauge(*old(g)).2 == i64::MAX {
                i64::MIN
            } else {
                (gauge(*old(g)).2 + 1) as i64
            },
        ),
    no_unwind
{
    g.inner.inc()
}

/// Calls `IntGauge::dec`, which takes one off and goes on at the greatest value
/// before the least.
#[verifier::external_body]
pub(crate) fn dec_gauge(g: &mut Gauge)
    ensures
        gauge(*final(g)) == (
            gauge(*old(g)).0,
            gauge(*old(g)).1,
            if gauge(*old(g)).2 == i64::MIN {
                i64::MAX
            } else {
                (gauge(*old(g)).2 - 1) as i64
            },
        ),
    no_unwind
{
    g.inner.dec()
}

/// Calls `IntCounter::inc`, which adds one and starts over at zero after the
/// greatest value.
#[verifier::external_body]
pub(crate) fn inc_counter(c: &mut Counter)
    ensures
        counter(*final(c)) == (counter(*old(c)).0, counter(*old(c)).1, next(counter(*old(c)).2)),
    no_unwind
{
    c.inner.inc()
}

/// Calls `Histogram::observe` with a duration in seconds, which records it.
#[verifier::external_body]
fn record(h: &mut prometheus::Histogram, nanos: u64)
    ensures
        histogram(*final(h)) == (
            histogram(*old(h)).0,
            histogram(*old(h)).1,
            histogram(*old(h)).2.push(nanos),
        ),
    no_unwind
{
    h.observe(std::time::Duration::from_nanos(nanos).as_secs_f64())
}

/// Records a duration.
pub(crate) fn observe(h: &mut DurationHistogram, nanos: u64)
    ensures
        final(h).contents() == (
            old(h).contents().0,
            old(h).contents().1,
            old(h).contents().2.push(nanos),
        ),
    no_unwind
{
    record(&mut h.inner, nanos)
}

/// Calls `with_label_values` on a gauge family and `set` on the gauge that it
/// hands out: the one in the slot of the label values, made anew where the slot
/// is free.
#[verifier::external_body]
pub(crate) fn set_labelled(f: &mut GaugeFamily, values: &[&str], n: u64)
    requires
        gauge_family(*old(f)).2.len() == values@.len(),
    ensures
        gauge_family(*final(f)) == (
            gauge_family(*old(f)).0,
            gauge_family(*old(f)).1,
            gauge_family(*old(f)).2,
            with_value(gauge_family(*old(f)).3, texts(values@), n),
        ),
    no_unwind
{
    f.inner.with_label_values(values).set(n)
}

/// Calls `remove_label_values` on a gauge family, which empties the slot of the
/// label values and fails where it was free.
#[verifier::external_body]
pub(crate) fn remove_labelled(f: &mut GaugeFamily, values: &[&str]) -> (found: bool)
    requires
        gauge_family(*old(f)).2.len() == values@.len(),
    ensures
        found == gauge_family(*old(f)).3.dom().contains(label_slot(texts(values@))),
        gauge_family(*final(f)) == (
            gauge_family(*old(f)).0,
            gauge_family(*old(f)).1,
            gauge_family(*old(f)).2,
            gauge_family(*old(f)).3.remove(label_slot(texts(values@))),
        ),
    no_unwind
{
    f.inner.remove_label_values(values).is_ok()
}

/// Calls `with_label_values` on a counter family and `inc` on the counter that
/// it hands out: the one in the slot of the label values, made anew with value
/// zero where the slot is free.
#[verifier::external_body]
pub(crate) fn inc_labelled(f: &mut CounterFamily, values: &[&str])
    requires
        counter_family(*old(f)).2.len() == values@.len(),
    ensures
        counter_family(*final(f)) == (
            counter_family(*old(f)).0,
            counter_family(*old(f)).1,
            counter_family(*old(f)).2,
            with_value(
                counter_family(*old(f)).3,
                texts(values@),
                next(value_in(counter_family(*old(f)).3, texts(values@))),
            ),
        ),
    no_unwind
{
    f.inner.with_label_values(values).inc()
}

/// Bucket bounds that a histogram accepts: increasing, and not so great that two
/// of them could become the same number of seconds.
pub open spec fn good_bounds(bounds_ms: Seq<u64>) -> bool {
    &&& forall|i: int, j: int|
        0 <= i < j < bounds_ms.len() ==> #[trigger] bounds_ms[i] < #[trigger] bounds_ms[j]
    &&& forall|i: int| 0 <= i < bounds_ms.len() ==> #[trigger] bounds_ms[i] < 0x1_0000_0000
}

/// Calls `with_label_values` on a histogram family and `observe`, with a
/// duration in seconds, on the histogram that it hands out: the one in the slot
/// of the label values, made anew where the slot is free. A label named `le` is
/// not accepted then.
#[verifier::external_body]
pub(crate) fn observe_labelled(f: &mut HistogramFamily, values: &[&str], nanos: u64)
    requires
        histogram_family(*old(f)).2.len() == values@.len(),
        !histogram_family(*old(f)).2.contains("le"@),
        good_bounds(histogram_family(*old(f)).3),
    ensures
        histogram_family(*final(f)) == (
            histogram_family(*old(f)).0,
            histogram_family(*old(f)).1,
            histogram_family(*old(f)).2,
            histogram_family(*old(f)).3,
            with_observation(histogram_family(*old(f)).4, texts(values@), nanos),
        ),
    no_unwind
{
    let seconds = std::time::Duration::from_nanos(nanos).as_secs_f64();
    f.inner.with_label_values(values).observe(seconds)
}

/// The value after `n` of a counter that starts over after the greatest value.
pub open spec fn next(n: u64) -> u64 {
    if n == u64::MAX {
        0
    } else {
        (n + 1) as u64
    }
}

/// The value in the slot of the label values, zero where it is free.
pub open spec fn value_in(slots: Map<u64, (Seq<Seq<char>>, u64)>, values: Seq<Seq<char>>) -> u64 {
    if slots.dom().contains(label_slot(values)) {
        slots[label_slot(values)].1
    } else {
        0
    }
}

/// The slots after the one of the label values was given the value `n`. A slot
/// that was taken keeps the label values it was made with.
pub open spec fn with_value(
    slots: Map<u64, (Seq<Seq<char>>, u64)>,
    values: Seq<Seq<char>>,
    n: u64,
) -> Map<u64, (Seq<Seq<char>>, u64)> {
    if slots.dom().contains(label_slot(values)) {
        slots.insert(label_slot(values), (slots[label_slot(values)].0, n))
    } else {
        slots.insert(label_slot(values), (values, n))
    }
}

/// The slots after one more count in the slot of the label values.
pub open spec fn counted(
    slots: Map<u64, (Seq<Seq<char>>, u64)>,
    values: Seq<Seq<char>>,
) -> Map<u64, (Seq<Seq<char>>, u64)> {
    with_value(slots, values, next(value_in(slots, values)))
}

/// The slots after a duration was observed in the one of the label values.
pub open spec fn with_observation(
    slots: Map<u64, (Seq<Seq<char>>, Seq<u64>)>,
    values: Seq<Seq<char>>,
    nanos: u64,
) -> Map<u64, (Seq<Seq<char>>, Seq<u64>)> {
    let slot = label_slot(values);
    if slots.dom().contains(slot) {
        slots.insert(slot, (slots[slot].0, slots[slot].1.push(nanos)))
    } else {
        slots.insert(slot, (values, seq![nanos]))
    }
}

/// The text in which metrics are exposed, each given by its name, help text and
/// contents, as the `prometheus` crate gathers and encodes them.
pub uninterp spec fn exposition(
    gauges: Seq<(Seq<char>, Seq<char>, i64)>,
    counters: Seq<(Seq<char>, Seq<char>, u64)>,
    histograms: Seq<(Seq<char>, Seq<char>, Seq<u64>)>,
    gauge_families: Seq<(Seq<char>, Seq<char>, Seq<Seq<char>>, Map<u64, (Seq<Seq<char>>, u64)>)>,
    counter_families: Seq<(Seq<char>, Seq<char>, Seq<Seq<char>>, Map<u64, (Seq<Seq<char>>, u64)>)>,
    histogram_families: Seq<
        (Seq<char>, Seq<char>, Seq<Seq<char>>, Seq<u64>, Map<u64, (Seq<Seq<char>>, Seq<u64>)>),
    >,
) -> Seq<char>;

/// What each gauge holds.
pub open spec fn gauges_of(s: Seq<&Gauge>) -> Seq<(Seq<char>, Seq<char>, i64)> {
    s.map_values(|g: &Gauge| gauge(*g))
}

/// What each counter holds.
pub open spec fn counters_of(s: Seq<&Counter>) -> Seq<(Seq<char>, Seq<char>, u64)> {
    s.map_values(|c: &Counter| counter(*c))
}

/// What each histogram holds.
pub open spec fn histograms_of(s: Seq<&DurationHistogram>) -> Seq<(Seq<char>, Seq<char>, Seq<u64>)> {
    s.map_values(|h: &DurationHistogram| h.contents())
}

/// What each gauge family holds.
pub open spec fn gauge_families_of(s: Seq<&GaugeFamily>) -> Seq<
    (Seq<char>, Seq<char>, Seq<Seq<char>>, Map<u64, (Seq<Seq<char>>, u64)>),
> {
    s.map_values(|f: &GaugeFamily| gauge_family(*f))
}

/// What each counter family holds.
pub open spec fn counter_families_of(s: Seq<&CounterFamily>) -> Seq<
    (Seq<char>, Seq<char>, Seq<Seq<char>>, Map<u64, (Seq<Seq<char>>, u64)>),
> {
    s.map_values(|f: &CounterFamily| counter_family(*f))
}

/// What each histogram family holds.
pub open spec fn histogram_families_of(s: Seq<&HistogramFamily>) -> Seq<
    (Seq<char>, Seq<char>, Seq<Seq<char>>, Seq<u64>, Map<u64, (Seq<Seq<char>>, Seq<u64>)>),
> {
    s.map_values(|f: &HistogramFamily| histogram_family(*f))
}

/// Registers the metrics with a new `prometheus::Registry`, and calls its
/// `gather` and then `TextEncoder::encode_to_string` on what came out. The text
/// follows from what the metrics hold. Encoding fails for a metric without a
/// name only, and none can be made without one.
#[verifier::external_body]
pub(crate) fn gather_and_encode(
    gauges: &[&Gauge],
    counters: &[&Counter],
    histograms: &[&DurationHistogram],
    gauge_families: &[&GaugeFamily],
    counter_families: &[&CounterFamily],
    histogram_families: &[&HistogramFamily],
) -> (r: Option<String>)
    ensures
        r is Some && r->0@ == exposition(
            gauges_of(gauges@),
            counters_of(counters@),
            histograms_of(histograms@),
            gauge_families_of(gauge_families@),
            counter_families_of(counter_families@),
            histogram_families_of(histogram_families@),
        ),
{
    let r = prometheus::Registry::new();
    for g in gauges { let _ = r.register(Box::new(g.inner.clone())); }
    for c in counters { let _ = r.register(Box::new(c.inner.clone())); }
    for h in histograms { let _ = r.register(Box::new(h.inner.clone())); }
    for f in gauge_families { let _ = r.register(Box::new(f.inner.clone())); }
    for f in counter_families { let _ = r.register(Box::new(f.inner.clone())); }
    for f in histogram_families { let _ = r.register(Box::new(f.inner.clone())); }
    prometheus::TextEncoder::new().encode_to_string(&r.gather()).ok()
}

/// Counting in one slot adds one there and changes no other slot.
pub proof fn lemma_counted(slots: Map<u64, (Seq<Seq<char>>, u64)>, labels: Seq<Seq<char>>)
    ensures
        value_in(counted(slots, labels), labels) == next(value_in(slots, labels)),
        forall|k: u64|
            k != label_slot(labels) ==> (#[trigger] counted(slots, labels).dom().contains(k)
                <==> slots.dom().contains(k)),
        forall|k: u64|
            k != label_slot(labels) && #[trigger] slots.dom().contains(k) ==> counted(
                slots,
                labels,
            )[k] == slots[k],
{
}

} // verus!
