use opentelemetry::metrics::MeterProvider;
use opentelemetry_sdk::metrics::new_view;
use opentelemetry_sdk::metrics::Aggregation;
use opentelemetry_sdk::metrics::Instrument;
use opentelemetry_sdk::metrics::Stream;
use prometheus::proto::Metric;

use ibc_telemetry::state::build_histogram_buckets;
use ibc_telemetry::TelemetryState;

fn make_state(
    submitted_start: u64,
    submitted_end: u64,
    submitted_buckets: u64,
    confirmed_start: u64,
    confirmed_end: u64,
    confirmed_buckets: u64,
    namespace: &str,
) -> (TelemetryState, opentelemetry_sdk::metrics::MeterProvider) {
    let registry = prometheus::Registry::new();
    let raw_exporter = opentelemetry_prometheus::exporter().with_registry(registry.clone());
    let exporter = if !namespace.is_empty() {
        raw_exporter
            .with_namespace(namespace)
            .build()
            .expect("Failed to create Prometheus exporter")
    } else {
        raw_exporter
            .build()
            .expect("Failed to create Prometheus exporter")
    };

    let submitted_bounds: Vec<f64> =
        build_histogram_buckets(submitted_start, submitted_end, submitted_buckets)
            .into_iter()
            .map(|x| x as f64)
            .collect();
    let confirmed_bounds: Vec<f64> =
        build_histogram_buckets(confirmed_start, confirmed_end, confirmed_buckets)
            .into_iter()
            .map(|x| x as f64)
            .collect();

    let submitted_view = new_view(
        Instrument::new().name("tx_latency_submitted"),
        Stream::new().aggregation(Aggregation::ExplicitBucketHistogram {
            boundaries: submitted_bounds,
            record_min_max: true,
        }),
    )
    .expect("Failed to create tx_latency_submitted view");
    let confirmed_view = new_view(
        Instrument::new().name("tx_latency_confirmed"),
        Stream::new().aggregation(Aggregation::ExplicitBucketHistogram {
            boundaries: confirmed_bounds,
            record_min_max: true,
        }),
    )
    .expect("Failed to create tx_latency_confirmed view");

    let provider = opentelemetry_sdk::metrics::MeterProvider::builder()
        .with_reader(exporter)
        .with_view(submitted_view)
        .with_view(confirmed_view)
        .build();
    let meter = provider.meter("hermes");
    let state = TelemetryState::new(registry, &meter).expect("Failed to create telemetry state");
    (state, provider)
}

fn assert_metric_value(metric: &[Metric], expected: u64) -> bool {
    metric
        .iter()
        .any(|m| m.get_gauge().get_value() as u64 == expected)
}

#[test]
fn insert_remove_backlog() {
    let (mut state, _provider) = make_state(0, 5000, 5, 0, 5000, 5, "hermes");

    let chain_id = "chain-test";
    let counterparty_chain_id = "counterpartychain-test";
    let channel_id = "channel-0";
    let port_id = "transfer";

    state.backlog_insert(1, chain_id, channel_id, port_id, counterparty_chain_id);
    state.backlog_insert(2, chain_id, channel_id, port_id, counterparty_chain_id);
    state.backlog_insert(3, chain_id, channel_id, port_id, counterparty_chain_id);
    state.backlog_insert(4, chain_id, channel_id, port_id, counterparty_chain_id);
    state.backlog_insert(5, chain_id, channel_id, port_id, counterparty_chain_id);
    state.backlog_remove(3, chain_id, channel_id, port_id, counterparty_chain_id);
    state.backlog_remove(1, chain_id, channel_id, port_id, counterparty_chain_id);

    let metrics = state.gather();
    let backlog_size = metrics
        .iter()
        .find(|metric| metric.get_name() == "hermes_backlog_size")
        .unwrap();
    assert!(
        assert_metric_value(backlog_size.get_metric(), 3),
        "expected backlog_size to be 3"
    );
    let backlog_oldest_sequence = metrics
        .iter()
        .find(|&metric| metric.get_name() == "hermes_backlog_oldest_sequence")
        .unwrap();
    assert!(
        assert_metric_value(backlog_oldest_sequence.get_metric(), 2),
        "expected backlog_oldest_sequence to be 2"
    );
}

#[test]
fn update_backlog() {
    let (mut state, _provider) = make_state(0, 5000, 5, 0, 5000, 5, "hermes");

    let chain_id = "chain-test";
    let counterparty_chain_id = "counterpartychain-test";
    let channel_id = "channel-0";
    let port_id = "transfer";

    state.backlog_insert(1, chain_id, channel_id, port_id, counterparty_chain_id);
    state.backlog_insert(2, chain_id, channel_id, port_id, counterparty_chain_id);
    state.backlog_insert(3, chain_id, channel_id, port_id, counterparty_chain_id);
    state.backlog_insert(4, chain_id, channel_id, port_id, counterparty_chain_id);
    state.backlog_insert(5, chain_id, channel_id, port_id, counterparty_chain_id);

    state.update_backlog(
        vec![5],
        chain_id,
        channel_id,
        port_id,
        counterparty_chain_id,
    );

    let metrics = state.gather();
    let backlog_size = metrics
        .iter()
        .find(|&metric| metric.get_name() == "hermes_backlog_size")
        .unwrap();
    assert!(
        assert_metric_value(backlog_size.get_metric(), 1),
        "expected backlog_size to be 1"
    );
    let backlog_oldest_sequence = metrics
        .iter()
        .find(|&metric| metric.get_name() == "hermes_backlog_oldest_sequence")
        .unwrap();
    assert!(
        assert_metric_value(backlog_oldest_sequence.get_metric(), 5),
        "expected backlog_oldest_sequence to be 5"
    );
}

#[test]
fn update_backlog_empty() {
    let (mut state, _provider) = make_state(0, 5000, 5, 0, 5000, 5, "hermes_");

    let chain_id = "chain-test";
    let counterparty_chain_id = "counterpartychain-test";
    let channel_id = "channel-0";
    let port_id = "transfer";

    state.backlog_insert(1, chain_id, channel_id, port_id, counterparty_chain_id);
    state.backlog_insert(2, chain_id, channel_id, port_id, counterparty_chain_id);
    state.backlog_insert(3, chain_id, channel_id, port_id, counterparty_chain_id);
    state.backlog_insert(4, chain_id, channel_id, port_id, counterparty_chain_id);
    state.backlog_insert(5, chain_id, channel_id, port_id, counterparty_chain_id);

    state.update_backlog(
        vec![],
        chain_id,
        channel_id,
        port_id,
        counterparty_chain_id,
    );

    let metrics = state.gather();
    let backlog_size = metrics
        .iter()
        .find(|&metric| metric.get_name() == "hermes_backlog_size")
        .unwrap();
    assert!(
        assert_metric_value(backlog_size.get_metric(), 0),
        "expected backlog_size to be 0"
    );
    let backlog_oldest_sequence = metrics
        .iter()
        .find(|&metric| metric.get_name() == "hermes_backlog_oldest_sequence")
        .unwrap();
    assert!(
        assert_metric_value(backlog_oldest_sequence.get_metric(), 0),
        "expected backlog_oldest_sequence to be 0"
    );
}

#[test]
fn removing_an_absent_sequence_changes_nothing() {
    let (mut state, _provider) = make_state(0, 5000, 5, 0, 5000, 5, "hermes");

    state.backlog_insert(10, "chain-a", "channel-0", "transfer", "chain-b");
    state.backlog_insert(20, "chain-a", "channel-0", "transfer", "chain-b");
    state.backlog_remove(30, "chain-a", "channel-0", "transfer", "chain-b");

    let metrics = state.gather();
    let backlog_size = metrics
        .iter()
        .find(|&metric| metric.get_name() == "hermes_backlog_size")
        .unwrap();
    assert!(
        assert_metric_value(backlog_size.get_metric(), 2),
        "expected backlog_size to be 2"
    );
    let backlog_oldest_sequence = metrics
        .iter()
        .find(|&metric| metric.get_name() == "hermes_backlog_oldest_sequence")
        .unwrap();
    assert!(
        assert_metric_value(backlog_oldest_sequence.get_metric(), 10),
        "expected backlog_oldest_sequence to be 10"
    );
}

#[test]
fn eviction_drops_the_smallest_sequence() {
    let (mut state, _provider) = make_state(0, 5000, 5, 0, 5000, 5, "hermes");

    for seq in 1..=902u64 {
        state.backlog_insert(seq, "chain-a", "channel-0", "transfer", "chain-b");
    }

    // Past the reset threshold of 900, inserting first evicts the smallest
    // pending sequence: the very first insertion's sequence 1 is gone, and
    // the size stays at the eviction bound of 901.
    let metrics = state.gather();
    let backlog_size = metrics
        .iter()
        .find(|&metric| metric.get_name() == "hermes_backlog_size")
        .unwrap();
    assert!(
        assert_metric_value(backlog_size.get_metric(), 901),
        "expected backlog_size to be 901"
    );
    let backlog_oldest_sequence = metrics
        .iter()
        .find(|&metric| metric.get_name() == "hermes_backlog_oldest_sequence")
        .unwrap();
    assert!(
        assert_metric_value(backlog_oldest_sequence.get_metric(), 2),
        "expected backlog_oldest_sequence to be 2"
    );
}

#[test]
fn two_paths_are_tracked_independently() {
    let (mut state, _provider) = make_state(0, 5000, 5, 0, 5000, 5, "hermes");

    state.backlog_insert(7, "chain-a", "channel-0", "transfer", "chain-b");
    state.backlog_insert(3, "chain-b", "channel-1", "transfer", "chain-a");
    state.backlog_remove(7, "chain-a", "channel-0", "transfer", "chain-b");

    let metrics = state.gather();
    let families = metrics
        .iter()
        .find(|&metric| metric.get_name() == "hermes_backlog_size")
        .unwrap();
    // The first path drained to empty, the second still pends one packet.
    assert!(assert_metric_value(families.get_metric(), 0));
    assert!(assert_metric_value(families.get_metric(), 1));
}
