use opentelemetry::metrics::MeterProvider;
use prometheus::proto::MetricFamily;

use ibc_telemetry::state::build_histogram_buckets;
use ibc_telemetry::BroadcastError;
use ibc_telemetry::PathIdentifier;
use ibc_telemetry::TelemetryState;
use ibc_telemetry::WorkerType;

fn make_state(namespace: &str) -> (TelemetryState, opentelemetry_sdk::metrics::MeterProvider) {
    let registry = prometheus::Registry::new();
    let exporter = opentelemetry_prometheus::exporter()
        .with_registry(registry.clone())
        .with_namespace(namespace)
        .build()
        .expect("Failed to create Prometheus exporter");
    let provider = opentelemetry_sdk::metrics::MeterProvider::builder().with_reader(exporter).build();
    let meter = provider.meter("hermes");
    let state = TelemetryState::new(registry, &meter).expect("Failed to create telemetry state");
    (state, provider)
}

fn find<'a>(metrics: &'a [MetricFamily], name: &str) -> Option<&'a MetricFamily> {
    metrics.iter().find(|family| family.get_name() == name)
}

fn counter_total(metrics: &[MetricFamily], name: &str) -> u64 {
    match find(metrics, name) {
        Some(family) => family
            .get_metric()
            .iter()
            .map(|m| m.get_counter().get_value() as u64)
            .sum(),
        None => 0,
    }
}

fn histogram_sample_count(metrics: &[MetricFamily], name: &str) -> u64 {
    match find(metrics, name) {
        Some(family) => family
            .get_metric()
            .iter()
            .map(|m| m.get_histogram().get_sample_count())
            .sum(),
        None => 0,
    }
}

fn gauge_for_label(metrics: &[MetricFamily], name: &str, label: &str, value: &str) -> Option<u64> {
    let family = find(metrics, name)?;
    family
        .get_metric()
        .iter()
        .find(|m| {
            m.get_label()
                .iter()
                .any(|l| l.get_name() == label && l.get_value() == value)
        })
        .map(|m| m.get_gauge().get_value() as u64)
}

#[test]
fn batch_latency_is_recorded_once_per_transaction() {
    let (mut state, _provider) = make_state("hermes");

    state.received_event_batch("batch-1");
    state.tx_submitted(3, "batch-1", "chain-a", "channel-0", "transfer", "chain-b");
    state.tx_confirmed(2, "batch-1", "chain-a", "channel-0", "transfer", "chain-b");

    let metrics = state.gather();
    assert_eq!(
        histogram_sample_count(&metrics, "hermes_tx_latency_submitted"),
        3,
        "expected 3 submit-latency samples"
    );
    assert_eq!(
        histogram_sample_count(&metrics, "hermes_tx_latency_confirmed"),
        2,
        "expected 2 confirm-latency samples"
    );
}

#[test]
fn sampling_an_unknown_batch_records_nothing() {
    let (mut state, _provider) = make_state("hermes");

    state.tx_submitted(4, "never-begun", "chain-a", "channel-0", "transfer", "chain-b");
    state.tx_confirmed(4, "never-begun", "chain-a", "channel-0", "transfer", "chain-b");

    let metrics = state.gather();
    assert_eq!(
        histogram_sample_count(&metrics, "hermes_tx_latency_submitted"),
        0
    );
    assert_eq!(
        histogram_sample_count(&metrics, "hermes_tx_latency_confirmed"),
        0
    );
}

#[test]
fn visible_fee_rewards_raise_the_windowed_sum() {
    let (mut state, _provider) = make_state("hermes");

    state.add_visible_fee_address("receiver-1".to_string());
    state.fees_amount("chain-a", "receiver-1", "stake", 100);

    let metrics = state.gather();
    assert_eq!(
        gauge_for_label(&metrics, "hermes_ics29_period_fees", "receiver", "receiver-1"),
        Some(100),
        "expected the windowed sum to be 100 after one reward"
    );

    state.fees_amount("chain-a", "receiver-1", "stake", 50);
    let metrics = state.gather();
    assert_eq!(
        gauge_for_label(&metrics, "hermes_ics29_period_fees", "receiver", "receiver-1"),
        Some(150),
        "expected the windowed sum to rise by exactly the reward"
    );
    assert_eq!(counter_total(&metrics, "hermes_ics29_fee_amounts_total"), 150);
}

#[test]
fn invisible_receivers_never_move_any_fee_signal() {
    let (mut state, _provider) = make_state("hermes");

    state.add_visible_fee_address("receiver-1".to_string());
    state.fees_amount("chain-a", "receiver-1", "stake", 100);
    state.fees_amount("chain-a", "receiver-2", "stake", u64::MAX);

    let metrics = state.gather();
    assert_eq!(
        gauge_for_label(&metrics, "hermes_ics29_period_fees", "receiver", "receiver-2"),
        None,
        "a receiver never opted in must leave no period-fee value"
    );
    assert_eq!(
        counter_total(&metrics, "hermes_ics29_fee_amounts_total"),
        100,
        "the running total must not move for an invisible receiver"
    );
}

#[test]
fn refreshing_the_window_reemits_the_same_sum() {
    let (mut state, _provider) = make_state("hermes");

    state.add_visible_fee_address("receiver-1".to_string());
    state.fees_amount("chain-a", "receiver-1", "stake", 75);
    state.update_period_fees("chain-a", "receiver-1", "stake");

    let metrics = state.gather();
    assert_eq!(
        gauge_for_label(&metrics, "hermes_ics29_period_fees", "receiver", "receiver-1"),
        Some(75)
    );
}

#[test]
fn broadcast_errors_carry_code_and_description() {
    let (mut state, _provider) = make_state("hermes");

    state.broadcast_errors("account-1", 13, "insufficient fee");
    state.broadcast_errors("account-1", 13, "insufficient fee");

    let metrics = state.gather();
    let family = find(&metrics, "hermes_broadcast_errors_total").unwrap();
    let metric = &family.get_metric()[0];
    assert_eq!(metric.get_counter().get_value() as u64, 2);
    assert!(metric
        .get_label()
        .iter()
        .any(|l| l.get_name() == "error_code" && l.get_value() == "13"));
    assert!(metric
        .get_label()
        .iter()
        .any(|l| l.get_name() == "error_description" && l.get_value() == "insufficient fee"));
}

#[test]
fn broadcast_error_codes_render_in_decimal() {
    let (mut state, _provider) = make_state("hermes");

    state.broadcast_errors("account-1", u32::MAX, "boundary");
    state.broadcast_errors("account-1", 0, "zero");

    let metrics = state.gather();
    let family = find(&metrics, "hermes_broadcast_errors_total").unwrap();
    let codes: Vec<String> = family
        .get_metric()
        .iter()
        .flat_map(|m| m.get_label().iter())
        .filter(|l| l.get_name() == "error_code")
        .map(|l| l.get_value().to_string())
        .collect();
    assert!(codes.contains(&"4294967295".to_string()));
    assert!(codes.contains(&"0".to_string()));
}

#[test]
fn refreshing_an_unknown_key_emits_zero() {
    let (mut state, _provider) = make_state("hermes");

    state.update_period_fees("chain-a", "receiver-9", "stake");

    let metrics = state.gather();
    assert_eq!(
        gauge_for_label(&metrics, "hermes_ics29_period_fees", "receiver", "receiver-9"),
        Some(0)
    );
}

#[test]
fn simulate_errors_carry_recoverability() {
    let (mut state, _provider) = make_state("hermes");

    state.simulate_errors("account-1", true, "out of gas");

    let metrics = state.gather();
    let family = find(&metrics, "hermes_simulate_errors_total").unwrap();
    let metric = &family.get_metric()[0];
    assert_eq!(metric.get_counter().get_value() as u64, 1);
    assert!(metric
        .get_label()
        .iter()
        .any(|l| l.get_name() == "recoverable" && l.get_value() == "true"));
}

#[test]
fn worker_counts_accumulate_per_type() {
    let (mut state, _provider) = make_state("hermes");

    state.init_worker_by_type(WorkerType::Packet);
    state.worker(WorkerType::Packet, 2);
    state.worker(WorkerType::Packet, 1);

    let metrics = state.gather();
    assert_eq!(
        gauge_for_label(&metrics, "hermes_workers", "type", "packet"),
        Some(3)
    );
}

#[test]
fn cross_chain_query_responses_split_by_outcome() {
    let (mut state, _provider) = make_state("hermes");

    state.cross_chain_queries("chain-a", "chain-b", 3);
    state.cross_chain_query_responses("chain-a", "chain-b", vec![true, false, true]);

    let metrics = state.gather();
    assert_eq!(
        counter_total(&metrics, "hermes_cross_chain_queries_total"),
        3
    );
    assert_eq!(
        counter_total(&metrics, "hermes_cross_chain_query_responses_total"),
        2
    );
    assert_eq!(
        counter_total(&metrics, "hermes_cross_chain_query_error_responses_total"),
        1
    );
}

#[test]
fn zero_counts_register_nothing() {
    let (mut state, _provider) = make_state("hermes");

    state.receive_packets_confirmed("a", "b", "channel-0", "channel-1", "transfer", "transfer", 0);
    state.filtered_packets("a", "b", "channel-0", "channel-1", "transfer", "transfer", 0);
    state.cross_chain_queries("a", "b", 0);

    let metrics = state.gather();
    assert_eq!(
        counter_total(&metrics, "hermes_receive_packets_confirmed_total"),
        0
    );
    assert_eq!(counter_total(&metrics, "hermes_filtered_packets_total"), 0);
    assert_eq!(counter_total(&metrics, "hermes_cross_chain_queries_total"), 0);
}

#[test]
fn per_chain_counters_count_events() {
    let (mut state, _provider) = make_state("hermes");

    state.init_per_chain("chain-a");
    state.ws_reconnect("chain-a");
    state.ws_events("chain-a", 5);
    state.messages_submitted("chain-a", 2);
    state.query("chain-a", "query_txs");
    state.queries_cache_hits("chain-a", "query_channel");

    let metrics = state.gather();
    assert_eq!(counter_total(&metrics, "hermes_ws_reconnect_total"), 1);
    assert_eq!(counter_total(&metrics, "hermes_ws_events_total"), 5);
    assert_eq!(counter_total(&metrics, "hermes_messages_submitted_total"), 2);
    assert_eq!(counter_total(&metrics, "hermes_queries_total"), 1);
    assert_eq!(counter_total(&metrics, "hermes_queries_cache_hits_total"), 1);
}

#[test]
fn histogram_bucket_bounds_step_evenly() {
    assert_eq!(
        build_histogram_buckets(0, 5000, 5),
        vec![0, 1000, 2000, 3000, 4000, 5000]
    );
    assert_eq!(build_histogram_buckets(10, 17, 3), vec![10, 12, 14, 16]);
}

#[test]
fn worker_type_labels_are_fixed() {
    assert_eq!(WorkerType::Client.as_label(), "client");
    assert_eq!(WorkerType::Connection.as_label(), "connection");
    assert_eq!(WorkerType::Channel.as_label(), "channel");
    assert_eq!(WorkerType::Packet.as_label(), "packet");
    assert_eq!(WorkerType::Wallet.as_label(), "wallet");
    assert_eq!(WorkerType::CrossChainQuery.as_label(), "cross-chain-query");
}

#[test]
fn broadcast_error_keeps_its_fields() {
    let e = BroadcastError::new(32, "incorrect account sequence");
    assert_eq!(e.code, 32);
    assert_eq!(e.description, "incorrect account sequence");
}

#[test]
fn path_identifier_is_the_triple() {
    let p = PathIdentifier::new(
        "chain-a".to_string(),
        "channel-0".to_string(),
        "transfer".to_string(),
    );
    let q = PathIdentifier::new(
        "chain-a".to_string(),
        "channel-0".to_string(),
        "transfer".to_string(),
    );
    assert_eq!(p, q);
    assert_eq!(p.chain_id, "chain-a");
    assert_eq!(p.channel_id, "channel-0");
    assert_eq!(p.port_id, "transfer");
}

#[test]
fn per_client_and_channel_counters_count() {
    let (mut state, _provider) = make_state("hermes");

    state.init_per_client("chain-a", "chain-b", "07-tendermint-0", true);
    state.client_updates_submitted("chain-a", "chain-b", "07-tendermint-0", 4);
    state.client_updates_skipped("chain-a", "chain-b", "07-tendermint-0", 1);
    state.client_misbehaviours_submitted("chain-a", "chain-b", "07-tendermint-0", 1);
    state.init_per_channel("chain-a", "chain-b", "channel-0", "channel-1", "transfer", "transfer");
    state.receive_packets_confirmed(
        "chain-a", "chain-b", "channel-0", "channel-1", "transfer", "transfer", 7,
    );
    state.acknowledgment_packets_confirmed(
        "chain-a", "chain-b", "channel-0", "channel-1", "transfer", "transfer", 6,
    );
    state.timeout_packets_confirmed(
        "chain-a", "chain-b", "channel-0", "channel-1", "transfer", "transfer", 5,
    );

    let metrics = state.gather();
    assert_eq!(
        counter_total(&metrics, "hermes_client_updates_submitted_total"),
        4
    );
    assert_eq!(
        counter_total(&metrics, "hermes_client_updates_skipped_total"),
        1
    );
    assert_eq!(
        counter_total(&metrics, "hermes_client_misbehaviours_submitted_total"),
        1
    );
    assert_eq!(
        counter_total(&metrics, "hermes_receive_packets_confirmed_total"),
        7
    );
    assert_eq!(
        counter_total(&metrics, "hermes_acknowledgment_packets_confirmed_total"),
        6
    );
    assert_eq!(
        counter_total(&metrics, "hermes_timeout_packets_confirmed_total"),
        5
    );
}

#[test]
fn per_path_event_counters_count() {
    let (mut state, _provider) = make_state("hermes");

    state.init_per_path("chain-a", "chain-b", "channel-0", "transfer", true);
    state.send_packet_events(1, 100, "chain-a", "channel-0", "transfer", "chain-b");
    state.acknowledgement_events(1, 101, "chain-a", "channel-0", "transfer", "chain-b");
    state.timeout_events("chain-a", "channel-0", "transfer", "chain-b");
    state.cleared_send_packet_events(2, 102, "chain-a", "channel-0", "transfer", "chain-b");
    state.cleared_acknowledgment_events(2, 103, "chain-a", "channel-0", "transfer", "chain-b");

    let metrics = state.gather();
    assert_eq!(counter_total(&metrics, "hermes_send_packet_events_total"), 1);
    assert_eq!(
        counter_total(&metrics, "hermes_acknowledgement_events_total"),
        1
    );
    assert_eq!(counter_total(&metrics, "hermes_timeout_events_total"), 1);
    assert_eq!(
        counter_total(&metrics, "hermes_cleared_send_packet_events_total"),
        1
    );
    assert_eq!(
        counter_total(&metrics, "hermes_cleared_acknowledgment_events_total"),
        1
    );
}
