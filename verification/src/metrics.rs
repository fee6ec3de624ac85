//! Trusted boundary around the metrics instruments and the pull-based
//! registry that exposes them.
//!
//! Each instrument is modelled by an uninterpreted spec function: a counter or
//! histogram by the multiset of (label list, value) measurements recorded on
//! it, a gauge by the map from label list to the last value observed for it.
//! The wrappers state how one call changes that model.
use vstd::multiset::Multiset;
use vstd::prelude::*;

use crate::labels::labels_view;

verus! {

#[verifier::external_type_specification]
#[verifier::external_body]
#[verifier::reject_recursive_types(T)]
pub struct ExCounter<T>(opentelemetry::metrics::Counter<T>);

#[verifier::external_type_specification]
#[verifier::external_body]
#[verifier::reject_recursive_types(T)]
pub struct ExUpDownCounter<T>(opentelemetry::metrics::UpDownCounter<T>);

#[verifier::external_type_specification]
#[verifier::external_body]
#[verifier::reject_recursive_types(T)]
pub struct ExObservableGauge<T>(opentelemetry::metrics::ObservableGauge<T>);

#[verifier::external_type_specification]
#[verifier::external_body]
#[verifier::reject_recursive_types(T)]
pub struct ExHistogram<T>(opentelemetry::metrics::Histogram<T>);

#[verifier::external_type_specification]
#[verifier::external_body]
pub struct ExMeter(opentelemetry::metrics::Meter);

#[verifier::external_type_specification]
#[verifier::external_body]
pub struct ExRegistry(prometheus::Registry);

#[verifier::external_type_specification]
#[verifier::external_body]
pub struct ExMetricFamily(prometheus::proto::MetricFamily);

/// What a counter holds: every (label list, increment) recorded on it.
pub uninterp spec fn counter_events(c: opentelemetry::metrics::Counter<u64>) -> Multiset<
    (Seq<(Seq<char>, Seq<char>)>, u64),
>;

/// What an up/down counter holds: every (label list, delta) recorded on it.
pub uninterp spec fn updown_events(c: opentelemetry::metrics::UpDownCounter<i64>) -> Multiset<
    (Seq<(Seq<char>, Seq<char>)>, i64),
>;

/// What a gauge holds: the last value observed for each label list.
pub uninterp spec fn gauge_values(g: opentelemetry::metrics::ObservableGauge<u64>) -> Map<
    Seq<(Seq<char>, Seq<char>)>,
    u64,
>;

/// What a histogram holds: every (label list, sample) recorded on it.
pub uninterp spec fn histogram_events(h: opentelemetry::metrics::Histogram<u64>) -> Multiset<
    (Seq<(Seq<char>, Seq<char>)>, u64),
>;

/// No measurements: what a freshly built counter or histogram holds.
pub open spec fn no_samples() -> Multiset<(Seq<(Seq<char>, Seq<char>)>, u64)> {
    Multiset::empty()
}

/// No deltas: what a freshly built up/down counter holds.
pub open spec fn no_deltas() -> Multiset<(Seq<(Seq<char>, Seq<char>)>, i64)> {
    Multiset::empty()
}

/// No observations: what a freshly built gauge holds.
pub open spec fn no_observations() -> Map<Seq<(Seq<char>, Seq<char>)>, u64> {
    Map::empty()
}

/// `n` copies of one (label list, value) measurement.
pub open spec fn repeat_sample(
    labels: Seq<(Seq<char>, Seq<char>)>,
    value: u64,
    n: nat,
) -> Multiset<(Seq<(Seq<char>, Seq<char>)>, u64)>
    decreases n,
{
    if n == 0 {
        Multiset::empty()
    } else {
        repeat_sample(labels, value, (n - 1) as nat).insert((labels, value))
    }
}

/// Relies on Meter::u64_counter / InstrumentBuilder::try_init: a newly built
/// counter has recorded nothing.
#[verifier::external_body]
pub(crate) fn counter_new(
    meter: &opentelemetry::metrics::Meter,
    name: &str,
    description: &str,
) -> (r: Option<opentelemetry::metrics::Counter<u64>>)
    ensures
        r matches Some(c) ==> counter_events(c) == no_samples(),
{
    meter.u64_counter(name.to_owned()).with_description(description.to_owned()).try_init().ok()
}

/// Relies on Meter::i64_up_down_counter / InstrumentBuilder::try_init: a newly
/// built up/down counter has recorded nothing.
#[verifier::external_body]
pub(crate) fn updown_new(
    meter: &opentelemetry::metrics::Meter,
    name: &str,
    description: &str,
) -> (r: Option<opentelemetry::metrics::UpDownCounter<i64>>)
    ensures
        r matches Some(c) ==> updown_events(c) == no_deltas(),
{
    meter.i64_up_down_counter(name.to_owned()).with_description(
        description.to_owned(),
    ).try_init().ok()
}

/// Relies on Meter::u64_observable_gauge / AsyncInstrumentBuilder::try_init: a
/// newly built gauge has observed nothing.
#[verifier::external_body]
pub(crate) fn gauge_new(
    meter: &opentelemetry::metrics::Meter,
    name: &str,
    description: &str,
    unit: &str,
) -> (r: Option<opentelemetry::metrics::ObservableGauge<u64>>)
    ensures
        r matches Some(g) ==> gauge_values(g) == no_observations(),
{
    meter.u64_observable_gauge(name.to_owned()).with_description(description.to_owned()).with_unit(
        opentelemetry::metrics::Unit::new(unit.to_owned()),
    ).try_init().ok()
}

/// Relies on Meter::u64_histogram / InstrumentBuilder::try_init: a newly built
/// histogram has recorded nothing.
#[verifier::external_body]
pub(crate) fn histogram_new(
    meter: &opentelemetry::metrics::Meter,
    name: &str,
    description: &str,
    unit: &str,
) -> (r: Option<opentelemetry::metrics::Histogram<u64>>)
    ensures
        r matches Some(h) ==> histogram_events(h) == no_samples(),
{
    meter.u64_histogram(name.to_owned()).with_description(description.to_owned()).with_unit(
        opentelemetry::metrics::Unit::new(unit.to_owned()),
    ).try_init().ok()
}

/// Relies on Counter::add: records the increment under the given labels, and
/// changes nothing else on this counter.
#[verifier::external_body]
pub(crate) fn counter_add(
    c: &mut opentelemetry::metrics::Counter<u64>,
    value: u64,
    labels: &Vec<(String, String)>,
)
    ensures
        counter_events(*final(c)) == counter_events(*old(c)).insert((labels_view(labels@), value)),
{
    let kvs: Vec<opentelemetry::KeyValue> = labels.iter().map(
        |p: &(String, String)| opentelemetry::KeyValue::new(p.0.clone(), p.1.clone()),
    ).collect();
    c.add(value, &kvs);
}

/// Relies on UpDownCounter::add: records the delta under the given labels, and
/// changes nothing else on this counter.
#[verifier::external_body]
pub(crate) fn updown_add(
    c: &mut opentelemetry::metrics::UpDownCounter<i64>,
    value: i64,
    labels: &Vec<(String, String)>,
)
    ensures
        updown_events(*final(c)) == updown_events(*old(c)).insert((labels_view(labels@), value)),
{
    let kvs: Vec<opentelemetry::KeyValue> = labels.iter().map(
        |p: &(String, String)| opentelemetry::KeyValue::new(p.0.clone(), p.1.clone()),
    ).collect();
    c.add(value, &kvs);
}

/// Relies on ObservableGauge::observe, which in the linked metrics pipeline
/// aggregates the measurement immediately: the gauge's last value for the
/// given labels becomes `value`, and no other label list is touched.
#[verifier::external_body]
pub(crate) fn gauge_observe(
    g: &mut opentelemetry::metrics::ObservableGauge<u64>,
    value: u64,
    labels: &Vec<(String, String)>,
)
    ensures
        gauge_values(*final(g)) == gauge_values(*old(g)).insert(labels_view(labels@), value),
{
    let kvs: Vec<opentelemetry::KeyValue> = labels.iter().map(
        |p: &(String, String)| opentelemetry::KeyValue::new(p.0.clone(), p.1.clone()),
    ).collect();
    g.observe(value, &kvs);
}

/// Relies on Histogram::record: records one sample under the given labels, and
/// changes nothing else on this histogram.
#[verifier::external_body]
pub(crate) fn histogram_record(
    h: &mut opentelemetry::metrics::Histogram<u64>,
    value: u64,
    labels: &Vec<(String, String)>,
)
    ensures
        histogram_events(*final(h)) == histogram_events(*old(h)).insert(
            (labels_view(labels@), value),
        ),
{
    let kvs: Vec<opentelemetry::KeyValue> = labels.iter().map(
        |p: &(String, String)| opentelemetry::KeyValue::new(p.0.clone(), p.1.clone()),
    ).collect();
    h.record(value, &kvs);
}

/// Relies on prometheus::Registry::gather: a snapshot of every metric family
/// currently registered; reads shared state, changes nothing the models track.
#[verifier::external_body]
pub(crate) fn registry_gather(r: &prometheus::Registry) -> Vec<prometheus::proto::MetricFamily> {
    r.gather()
}

} // verus!
