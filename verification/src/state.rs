//! The accounting state of the relayer: per-path backlogs of pending packets,
//! correlation of event batches with their submission and confirmation,
//! windowed fee-reward sums, and failure counters, each emitted through a
//! metrics instrument as it changes.
use vstd::multiset::Multiset;
use vstd::prelude::*;

use vstd::string::StringExecFns;

use crate::backlog::{
    backlog_insert_step, is_oldest, lemma_insert_step_dom, lemma_keys_characterize,
    lemma_oldest_pin, min_of_keys, oldest_in, replace_dom_fold, BACKLOG_CAPACITY,
    BACKLOG_RESET_THRESHOLD, EMPTY_BACKLOG_SYMBOL,
};
use crate::clock::now_unix_millis;
use crate::broadcast_error::BroadcastError;
use crate::labels::{
    broadcast_error_labels, chain_labels, channel_labels, client_labels, fee_labels,
    make_broadcast_error_labels, make_chain_labels, make_channel_labels, make_client_labels,
    make_fee_labels, make_path_labels, make_query_labels, make_simulate_error_labels,
    make_src_dst_labels, make_worker_labels, path_labels, query_labels, simulate_error_labels,
    src_dst_labels, worker_labels,
};
use crate::text::{bool_label, bool_to_str, dec_digits, u64_to_dec};
use crate::metrics::{
    counter_add, counter_events, counter_new, gauge_new, gauge_observe, gauge_values,
    histogram_events, histogram_new, histogram_record, no_deltas, no_observations, no_samples,
    registry_gather, repeat_sample, updown_add, updown_events, updown_new,
};
use crate::path_identifier::PathIdentifier;
use crate::store::{
    address_set_contains, address_set_insert, address_set_model, address_set_new, cache_get,
    cache_insert, cache_keeps_writes, cache_list_get, cache_model, cache_new, path_table_model,
    path_table_new,
    path_table_put, path_table_take, sequence_map_insert, sequence_map_keys, sequence_map_model,
    sequence_map_new, sequence_map_remove,
};

verus! {

/// Lifetime of the entries of a batch-correlation cache: one hour.
pub const IN_FLIGHT_TTL_SECS: u64 = 60 * 60;

/// Idle lifetime of the entries of a batch-correlation cache: half an hour.
pub const IN_FLIGHT_TTI_SECS: u64 = 30 * 60;

/// Lifetime of one rewarded-fee record, and so the width of the windowed fee
/// sum: seven days.
pub const FEE_LIFETIME_SECS: u64 = 60 * 60 * 24 * 7;

/// The kind of worker whose count is tracked.
#[derive(Copy, Clone, Debug)]
pub enum WorkerType {
    Client,
    Connection,
    Channel,
    Packet,
    Wallet,
    CrossChainQuery,
}

impl WorkerType {
    /// The label value under which this worker kind is counted.
    pub open spec fn label_view(self) -> Seq<char> {
        match self {
            WorkerType::Client => "client"@,
            WorkerType::Connection => "connection"@,
            WorkerType::Channel => "channel"@,
            WorkerType::Packet => "packet"@,
            WorkerType::Wallet => "wallet"@,
            WorkerType::CrossChainQuery => "cross-chain-query"@,
        }
    }

    /// The label value under which this worker kind is counted.
    pub fn as_label(&self) -> (s: String)
        ensures
            s@ == self.label_view(),
    {
        match self {
            WorkerType::Client => String::from_str("client"),
            WorkerType::Connection => String::from_str("connection"),
            WorkerType::Channel => String::from_str("channel"),
            WorkerType::Packet => String::from_str("packet"),
            WorkerType::Wallet => String::from_str("wallet"),
            WorkerType::CrossChainQuery => String::from_str("cross-chain-query"),
        }
    }
}

/// The accounting state. Every mutating operation both updates the owned
/// collections and emits the derived values through the metrics instruments;
/// the pull-based registry the instruments feed is snapshotted by `gather`.
pub struct TelemetryState {
    pub registry: prometheus::Registry,
    /// Number of workers per type.
    pub workers: opentelemetry::metrics::UpDownCounter<i64>,
    /// Number of client update messages submitted per client.
    pub client_updates_submitted: opentelemetry::metrics::Counter<u64>,
    /// Number of client updates skipped because the consensus state exists.
    pub client_updates_skipped: opentelemetry::metrics::Counter<u64>,
    /// Number of misbehaviours detected and submitted per client.
    pub client_misbehaviours_submitted: opentelemetry::metrics::Counter<u64>,
    /// Number of confirmed receive packets per channel.
    pub receive_packets_confirmed: opentelemetry::metrics::Counter<u64>,
    /// Number of confirmed acknowledgment packets per channel.
    pub acknowledgment_packets_confirmed: opentelemetry::metrics::Counter<u64>,
    /// Number of confirmed timeout packets per channel.
    pub timeout_packets_confirmed: opentelemetry::metrics::Counter<u64>,
    /// Number of queries submitted, per chain and query type.
    pub queries: opentelemetry::metrics::Counter<u64>,
    /// Number of cache hits for submitted queries, per chain and query type.
    pub queries_cache_hits: opentelemetry::metrics::Counter<u64>,
    /// Number of times the websocket endpoint was reconnected, per chain.
    pub ws_reconnect: opentelemetry::metrics::Counter<u64>,
    /// Number of events received over the websocket subscription, per chain.
    pub ws_events: opentelemetry::metrics::Counter<u64>,
    /// Number of messages submitted to a specific chain.
    pub messages_submitted: opentelemetry::metrics::Counter<u64>,
    /// Latency between receiving an event batch and submitting the
    /// corresponding transactions, in milliseconds.
    pub tx_latency_submitted: opentelemetry::metrics::Histogram<u64>,
    /// Latency between receiving an event batch and confirming the
    /// corresponding transactions, in milliseconds.
    pub tx_latency_confirmed: opentelemetry::metrics::Histogram<u64>,
    /// When each in-flight event batch started being processed, in unix
    /// milliseconds, keyed by tracking identifier; entries expire.
    pub in_flight_events: moka::sync::Cache<String, u64>,
    /// Number of send-packet events received, per path.
    pub send_packet_events: opentelemetry::metrics::Counter<u64>,
    /// Number of write-acknowledgement events received, per path.
    pub acknowledgement_events: opentelemetry::metrics::Counter<u64>,
    /// Number of timeout events received, per path.
    pub timeout_events: opentelemetry::metrics::Counter<u64>,
    /// Number of send-packet events received during clearing, per path.
    pub cleared_send_packet_events: opentelemetry::metrics::Counter<u64>,
    /// Number of write-acknowledgement events received during clearing.
    pub cleared_acknowledgment_events: opentelemetry::metrics::Counter<u64>,
    /// The smallest pending sequence number per path, or 0 when none pend.
    pub backlog_oldest_sequence: opentelemetry::metrics::ObservableGauge<u64>,
    /// Unix seconds of the last backlog update per path.
    pub backlog_latest_update_timestamp: opentelemetry::metrics::ObservableGauge<u64>,
    /// Number of pending packets per path.
    pub backlog_size: opentelemetry::metrics::ObservableGauge<u64>,
    /// The backlog of every active path: pending sequence -> observed-at.
    pub backlogs: dashmap::DashMap<PathIdentifier, dashmap::DashMap<u64, u64>>,
    /// Total amount of rewarded fees.
    pub fee_amounts: opentelemetry::metrics::Counter<u64>,
    /// Receiver addresses whose rewarded fees are recorded.
    pub visible_fee_addresses: dashmap::DashSet<String>,
    /// One short-lived record per rewarded fee; the windowed sum of a key is
    /// the sum of that key's value over every record still alive.
    pub cached_fees: Vec<moka::sync::Cache<String, u64>>,
    /// Rewarded fees summed over the trailing lifetime window, per key.
    pub period_fees: opentelemetry::metrics::ObservableGauge<u64>,
    /// Number of errors observed when broadcasting a transaction.
    pub broadcast_errors: opentelemetry::metrics::Counter<u64>,
    /// Number of errors observed when simulating a transaction.
    pub simulate_errors: opentelemetry::metrics::Counter<u64>,
    /// Number of packets filtered for oversized memo or receiver fields.
    pub filtered_packets: opentelemetry::metrics::Counter<u64>,
    /// Number of cross-chain queries observed.
    pub cross_chain_queries: opentelemetry::metrics::Counter<u64>,
    /// Number of successful cross-chain query responses.
    pub cross_chain_query_responses: opentelemetry::metrics::Counter<u64>,
    /// Number of failed cross-chain query responses.
    pub cross_chain_query_error_responses: opentelemetry::metrics::Counter<u64>,
}

/// The backlog of one path, or an empty map for a path never inserted into.
pub open spec fn backlog_at(st: TelemetryState, path: (Seq<char>, Seq<char>, Seq<char>)) -> Map<
    u64,
    u64,
> {
    if path_table_model(st.backlogs).dom().contains(path) {
        path_table_model(st.backlogs)[path]
    } else {
        Map::empty()
    }
}

/// What one backlog insertion does: the path's backlog takes the insertion
/// step with timestamp `ts`, and the three per-path gauges are set to the new
/// oldest sequence, `ts`, and the new size.
pub open spec fn backlog_insert_transition(
    pre: TelemetryState,
    post: TelemetryState,
    path: (Seq<char>, Seq<char>, Seq<char>),
    counterparty: Seq<char>,
    seq_nr: u64,
    ts: u64,
) -> bool {
    let labels = path_labels(path.0, counterparty, path.1, path.2);
    let before = backlog_at(pre, path);
    let after = backlog_insert_step(before, seq_nr, ts);
    &&& path_table_model(post.backlogs) == path_table_model(pre.backlogs).insert(path, after)
    &&& gauge_values(post.backlog_oldest_sequence) == gauge_values(
        pre.backlog_oldest_sequence,
    ).insert(labels, oldest_in(after.dom()))
    &&& gauge_values(post.backlog_latest_update_timestamp) == gauge_values(
        pre.backlog_latest_update_timestamp,
    ).insert(labels, ts)
    &&& gauge_values(post.backlog_size) == gauge_values(pre.backlog_size).insert(
        labels,
        after.dom().len() as u64,
    )
}

/// What one backlog removal does: when the sequence was pending it is dropped
/// and the three per-path gauges are refreshed; otherwise nothing changes.
pub open spec fn backlog_remove_transition(
    pre: TelemetryState,
    post: TelemetryState,
    path: (Seq<char>, Seq<char>, Seq<char>),
    counterparty: Seq<char>,
    seq_nr: u64,
    ts: u64,
) -> bool {
    let labels = path_labels(path.0, counterparty, path.1, path.2);
    let before = backlog_at(pre, path);
    let after = before.remove(seq_nr);
    if before.dom().contains(seq_nr) {
        &&& path_table_model(post.backlogs) == path_table_model(pre.backlogs).insert(path, after)
        &&& gauge_values(post.backlog_oldest_sequence) == gauge_values(
            pre.backlog_oldest_sequence,
        ).insert(labels, oldest_in(after.dom()))
        &&& gauge_values(post.backlog_latest_update_timestamp) == gauge_values(
            pre.backlog_latest_update_timestamp,
        ).insert(labels, ts)
        &&& gauge_values(post.backlog_size) == gauge_values(pre.backlog_size).insert(
            labels,
            after.dom().len() as u64,
        )
    } else {
        &&& path_table_model(post.backlogs) == path_table_model(pre.backlogs)
        &&& gauge_values(post.backlog_oldest_sequence) == gauge_values(pre.backlog_oldest_sequence)
        &&& gauge_values(post.backlog_latest_update_timestamp) == gauge_values(
            pre.backlog_latest_update_timestamp,
        )
        &&& gauge_values(post.backlog_size) == gauge_values(pre.backlog_size)
    }
}

/// What one reconciliation does. With an empty listing, every pending
/// sequence of the path is removed one at a time: a tracked non-empty backlog
/// is driven to empty and its gauges to the sentinel 0, while an untracked or
/// already-empty backlog changes nothing. With a non-empty listing, the
/// path's backlog is replaced by the listed sequences and the gauges are set
/// from the result.
pub open spec fn update_backlog_transition(
    pre: TelemetryState,
    post: TelemetryState,
    path: (Seq<char>, Seq<char>, Seq<char>),
    counterparty: Seq<char>,
    s: Seq<u64>,
) -> bool {
    let labels = path_labels(path.0, counterparty, path.1, path.2);
    let before = backlog_at(pre, path);
    if s.len() == 0 {
        if path_table_model(pre.backlogs).dom().contains(path) && before.dom().len() > 0 {
            &&& backlog_at(post, path).dom() == Set::<u64>::empty()
            &&& path_table_model(post.backlogs) == path_table_model(pre.backlogs).insert(
                path,
                backlog_at(post, path),
            )
            &&& gauge_values(post.backlog_oldest_sequence) == gauge_values(
                pre.backlog_oldest_sequence,
            ).insert(labels, EMPTY_BACKLOG_SYMBOL)
            &&& gauge_values(post.backlog_size) == gauge_values(pre.backlog_size).insert(labels, 0)
            &&& exists|ts: u64|
                gauge_values(post.backlog_latest_update_timestamp) == gauge_values(
                    pre.backlog_latest_update_timestamp,
                ).insert(labels, ts)
        } else {
            &&& path_table_model(post.backlogs) == path_table_model(pre.backlogs)
            &&& gauge_values(post.backlog_oldest_sequence) == gauge_values(
                pre.backlog_oldest_sequence,
            )
            &&& gauge_values(post.backlog_latest_update_timestamp) == gauge_values(
                pre.backlog_latest_update_timestamp,
            )
            &&& gauge_values(post.backlog_size) == gauge_values(pre.backlog_size)
        }
    } else {
        &&& backlog_at(post, path).dom() == replace_dom_fold(s)
        &&& path_table_model(post.backlogs) == path_table_model(pre.backlogs).insert(
            path,
            backlog_at(post, path),
        )
        &&& gauge_values(post.backlog_oldest_sequence) == gauge_values(
            pre.backlog_oldest_sequence,
        ).insert(labels, oldest_in(replace_dom_fold(s)))
        &&& gauge_values(post.backlog_size) == gauge_values(pre.backlog_size).insert(
            labels,
            replace_dom_fold(s).len() as u64,
        )
        &&& exists|ts: u64|
            gauge_values(post.backlog_latest_update_timestamp) == gauge_values(
                pre.backlog_latest_update_timestamp,
            ).insert(labels, ts)
    }
}

/// What one fee record is worth towards the windowed sum of `key`: its stored
/// amount while it lives, 0 once expired.
pub open spec fn bucket_value(c: moka::sync::Cache<String, u64>, key: Seq<char>) -> int {
    if cache_model(c).dom().contains(key) {
        cache_model(c)[key] as int
    } else {
        0
    }
}

/// The windowed sum for `key`: the total of every live record's amount under
/// that key, over the listed fee records.
pub open spec fn window_sum(caches: Seq<moka::sync::Cache<String, u64>>, key: Seq<char>) -> int
    decreases caches.len(),
{
    if caches.len() == 0 {
        0int
    } else {
        window_sum(caches.drop_last(), key) + bucket_value(caches.last(), key)
    }
}

/// A windowed sum is never negative.
pub proof fn lemma_window_sum_nonneg(caches: Seq<moka::sync::Cache<String, u64>>, key: Seq<char>)
    ensures
        window_sum(caches, key) >= 0,
    decreases caches.len(),
{
    if caches.len() > 0 {
        lemma_window_sum_nonneg(caches.drop_last(), key);
    }
}

/// The elapsed time from `start` to `now`, clamped at zero if the clock ran
/// backwards.
pub open spec fn elapsed_millis(now: u64, start: u64) -> u64 {
    if now >= start {
        (now - start) as u64
    } else {
        0u64
    }
}

/// An integer clamped into the range of the emitted gauge value.
pub open spec fn clamp_u64(x: int) -> u64 {
    if x > (u64::MAX as int) {
        u64::MAX
    } else if x < 0 {
        0u64
    } else {
        x as u64
    }
}

/// The cache key under which a fee reward for (chain, receiver, denom) is
/// recorded.
pub open spec fn fee_key_view(chain: Seq<char>, receiver: Seq<char>, denom: Seq<char>) -> Seq<
    char,
> {
    "fee_amount:"@ + chain + "/"@ + receiver + "/"@ + denom
}

/// Builds the cache key of a fee reward.
fn make_fee_key(chain: &str, receiver: &str, denom: &str) -> (r: String)
    ensures
        r@ == fee_key_view(chain@, receiver@, denom@),
{
    let mut k = String::from_str("fee_amount:");
    k.append(chain);
    k.append("/");
    k.append(receiver);
    k.append("/");
    k.append(denom);
    proof {
        assert(k@ =~= fee_key_view(chain@, receiver@, denom@));
    }
    k
}

/// The query kinds whose counters are pre-registered per chain.
pub open spec fn spec_query_types() -> Seq<Seq<char>> {
    seq![
        "query_latest_height"@,
        "query_block"@,
        "query_blocks"@,
        "query_packet_events"@,
        "query_txs"@,
        "query_next_sequence_receive"@,
        "query_unreceived_acknowledgements"@,
        "query_packet_acknowledgements"@,
        "query_unreceived_packets"@,
        "query_packet_commitments"@,
        "query_channel_client_state"@,
        "query_channel"@,
        "query_channels"@,
        "query_connection_channels"@,
        "query_connection"@,
        "query_connections"@,
        "query_client_connections"@,
        "query_consensus_state"@,
        "query_consensus_states"@,
        "query_upgraded_consensus_state"@,
        "query_client_state"@,
        "query_clients"@,
        "query_application_status"@,
        "query_commitment_prefix"@,
        "query_latest_height"@,
        "query_staking_params"@,
    ]
}

/// The query kinds whose cache-hit counters are pre-registered per chain.
pub open spec fn spec_query_types_cache() -> Seq<Seq<char>> {
    seq![
        "query_latest_height"@,
        "query_client_state"@,
        "query_connection"@,
        "query_channel"@,
    ]
}

/// One zero-valued measurement per listed query kind, under that kind's
/// per-chain label list.
pub open spec fn query_zero_events(chain: Seq<char>, types: Seq<Seq<char>>) -> Multiset<
    (Seq<(Seq<char>, Seq<char>)>, u64),
>
    decreases types.len(),
{
    if types.len() == 0 {
        Multiset::empty()
    } else {
        query_zero_events(chain, types.drop_last()).insert(
            (query_labels(chain, types.last()), 0u64),
        )
    }
}

/// How many entries of `s` are true.
pub open spec fn count_true(s: Seq<bool>) -> nat
    decreases s.len(),
{
    if s.len() == 0 {
        0nat
    } else {
        count_true(s.drop_last()) + (if s.last() {
            1nat
        } else {
            0nat
        })
    }
}

/// No more entries are true than there are entries.
pub proof fn lemma_count_true_bound(s: Seq<bool>)
    ensures
        count_true(s) <= s.len(),
    decreases s.len(),
{
    if s.len() > 0 {
        lemma_count_true_bound(s.drop_last());
    }
}

/// The query kinds whose counters are pre-registered per chain.
fn query_types() -> (v: Vec<&'static str>)
    ensures
        v@.len() == spec_query_types().len(),
        forall|i: int| 0 <= i < v@.len() ==> v@[i]@ == spec_query_types()[i],
{
    let v: Vec<&'static str> = vec![
        "query_latest_height",
        "query_block",
        "query_blocks",
        "query_packet_events",
        "query_txs",
        "query_next_sequence_receive",
        "query_unreceived_acknowledgements",
        "query_packet_acknowledgements",
        "query_unreceived_packets",
        "query_packet_commitments",
        "query_channel_client_state",
        "query_channel",
        "query_channels",
        "query_connection_channels",
        "query_connection",
        "query_connections",
        "query_client_connections",
        "query_consensus_state",
        "query_consensus_states",
        "query_upgraded_consensus_state",
        "query_client_state",
        "query_clients",
        "query_application_status",
        "query_commitment_prefix",
        "query_latest_height",
        "query_staking_params",
    ];
    v
}

/// The query kinds whose cache-hit counters are pre-registered per chain.
fn query_types_cache() -> (v: Vec<&'static str>)
    ensures
        v@.len() == spec_query_types_cache().len(),
        forall|i: int| 0 <= i < v@.len() ==> v@[i]@ == spec_query_types_cache()[i],
{
    let v: Vec<&'static str> = vec![
        "query_latest_height",
        "query_client_state",
        "query_connection",
        "query_channel",
    ];
    v
}

/// The explicit bounds of a latency histogram: `buckets` equal steps upward
/// from `start`, the step being the integer quotient of the range width by
/// the bucket count.
#[verifier::loop_isolation(false)]
pub fn build_histogram_buckets(start: u64, end: u64, buckets: u64) -> (r: Vec<u64>)
    requires
        start <= end,
        1 <= buckets <= 0xffff_ffff,
    ensures
        r@.len() == buckets + 1,
        forall|i: int|
            0 <= i < r@.len() ==> r@[i] == start + i * (((end - start) as int) / (buckets as int)),
{
    let step = (end - start) / buckets;
    proof {
        vstd::arithmetic::div_mod::lemma_fundamental_div_mod((end - start) as int, buckets as int);
        assert((buckets as int) * (step as int) <= (end - start) as int);
    }
    let mut r: Vec<u64> = Vec::new();
    let mut i: u64 = 0;
    while i <= buckets
        invariant
            0 <= i <= buckets + 1,
            r@.len() == i,
            forall|j: int|
                0 <= j < r@.len() ==> r@[j] == start + j * (((end - start) as int) / (
                buckets as int)),
        decreases buckets + 1 - i,
    {
        proof {
            assert((i as int) * (step as int) <= (buckets as int) * (step as int))
                by (nonlinear_arith)
                requires
                    0 <= i <= buckets,
                    step >= 0,
            ;
        }
        r.push(start + i * step);
        i = i + 1;
    }
    r
}

/// Picks the timestamp witnessing one backlog insertion.
pub proof fn extract_insert_ts(
    pre: TelemetryState,
    post: TelemetryState,
    path: (Seq<char>, Seq<char>, Seq<char>),
    counterparty: Seq<char>,
    seq_nr: u64,
) -> (ts: u64)
    requires
        exists|ts: u64| backlog_insert_transition(pre, post, path, counterparty, seq_nr, ts),
    ensures
        backlog_insert_transition(pre, post, path, counterparty, seq_nr, ts),
{
    choose|ts: u64| backlog_insert_transition(pre, post, path, counterparty, seq_nr, ts)
}

/// Picks the timestamp witnessing one backlog removal.
pub proof fn extract_remove_ts(
    pre: TelemetryState,
    post: TelemetryState,
    path: (Seq<char>, Seq<char>, Seq<char>),
    counterparty: Seq<char>,
    seq_nr: u64,
) -> (ts: u64)
    requires
        exists|ts: u64| backlog_remove_transition(pre, post, path, counterparty, seq_nr, ts),
    ensures
        backlog_remove_transition(pre, post, path, counterparty, seq_nr, ts),
{
    choose|ts: u64| backlog_remove_transition(pre, post, path, counterparty, seq_nr, ts)
}

impl TelemetryState {
    /// Builds the accounting state over an externally configured registry and
    /// meter; every owned collection starts empty and every instrument has
    /// recorded nothing. Returns nothing when the meter refuses an instrument.
    pub fn new(registry: prometheus::Registry, meter: &opentelemetry::metrics::Meter) -> (r:
        Option<TelemetryState>)
        ensures
            r matches Some(st) ==> {
                &&& st.registry == registry
                &&& updown_events(st.workers) == no_deltas()
                &&& counter_events(st.client_updates_submitted) == no_samples()
                &&& counter_events(st.client_updates_skipped) == no_samples()
                &&& counter_events(st.client_misbehaviours_submitted) == no_samples()
                &&& counter_events(st.receive_packets_confirmed) == no_samples()
                &&& counter_events(st.acknowledgment_packets_confirmed) == no_samples()
                &&& counter_events(st.timeout_packets_confirmed) == no_samples()
                &&& counter_events(st.queries) == no_samples()
                &&& counter_events(st.queries_cache_hits) == no_samples()
                &&& counter_events(st.ws_reconnect) == no_samples()
                &&& counter_events(st.ws_events) == no_samples()
                &&& counter_events(st.messages_submitted) == no_samples()
                &&& histogram_events(st.tx_latency_submitted) == no_samples()
                &&& histogram_events(st.tx_latency_confirmed) == no_samples()
                &&& cache_model(st.in_flight_events) == Map::<Seq<char>, u64>::empty()
                &&& cache_keeps_writes(st.in_flight_events)
                &&& counter_events(st.send_packet_events) == no_samples()
                &&& counter_events(st.acknowledgement_events) == no_samples()
                &&& counter_events(st.timeout_events) == no_samples()
                &&& counter_events(st.cleared_send_packet_events) == no_samples()
                &&& counter_events(st.cleared_acknowledgment_events) == no_samples()
                &&& gauge_values(st.backlog_oldest_sequence) == no_observations()
                &&& gauge_values(st.backlog_latest_update_timestamp) == no_observations()
                &&& gauge_values(st.backlog_size) == no_observations()
                &&& path_table_model(st.backlogs) == Map::<
                    (Seq<char>, Seq<char>, Seq<char>),
                    Map<u64, u64>,
                >::empty()
                &&& counter_events(st.fee_amounts) == no_samples()
                &&& address_set_model(st.visible_fee_addresses) == Set::<Seq<char>>::empty()
                &&& st.cached_fees@.len() == 0
                &&& gauge_values(st.period_fees) == no_observations()
                &&& counter_events(st.broadcast_errors) == no_samples()
                &&& counter_events(st.simulate_errors) == no_samples()
                &&& counter_events(st.filtered_packets) == no_samples()
                &&& counter_events(st.cross_chain_queries) == no_samples()
                &&& counter_events(st.cross_chain_query_responses) == no_samples()
                &&& counter_events(st.cross_chain_query_error_responses) == no_samples()
            },
    {
        let workers = updown_new(meter, "workers", "Number of workers")?;
        let client_updates_submitted = counter_new(
            meter,
            "client_updates_submitted",
            "Number of client update messages submitted",
        )?;
        let client_updates_skipped = counter_new(
            meter,
            "client_updates_skipped",
            "Number of client update messages skipped",
        )?;
        let client_misbehaviours_submitted = counter_new(
            meter,
            "client_misbehaviours_submitted",
            "Number of misbehaviours detected and submitted",
        )?;
        let receive_packets_confirmed = counter_new(
            meter,
            "receive_packets_confirmed",
            "Number of confirmed receive packets. Available if relayer runs with Tx confirmation enabled",
        )?;
        let acknowledgment_packets_confirmed = counter_new(
            meter,
            "acknowledgment_packets_confirmed",
            "Number of confirmed acknowledgment packets. Available if relayer runs with Tx confirmation enabled",
        )?;
        let timeout_packets_confirmed = counter_new(
            meter,
            "timeout_packets_confirmed",
            "Number of confirmed timeout packets. Available if relayer runs with Tx confirmation enabled",
        )?;
        let queries = counter_new(meter, "queries", "Number of queries submitted by the relayer")?;
        let queries_cache_hits = counter_new(
            meter,
            "queries_cache_hits",
            "Number of cache hits for queries submitted by the relayer",
        )?;
        let ws_reconnect = counter_new(
            meter,
            "ws_reconnect",
            "Number of times the relayer reconnected to the websocket endpoint",
        )?;
        let ws_events = counter_new(
            meter,
            "ws_events",
            "How many IBC events were received via the websocket subscription",
        )?;
        let messages_submitted = counter_new(
            meter,
            "messages_submitted",
            "Number of messages submitted to a specific chain",
        )?;
        let tx_latency_submitted = histogram_new(
            meter,
            "tx_latency_submitted",
            "The latency for all transactions submitted to a specific chain, \
                i.e. the difference between the moment when the relayer received a batch of events \
                and when it submitted the corresponding transaction(s). Milliseconds.",
            "milliseconds",
        )?;
        let tx_latency_confirmed = histogram_new(
            meter,
            "tx_latency_confirmed",
            "The latency for all transactions submitted & confirmed to a specific chain, \
                i.e. the difference between the moment when the relayer received a batch of events \
                until the corresponding transaction(s) were confirmed. Milliseconds.",
            "milliseconds",
        )?;
        let in_flight_events = cache_new(IN_FLIGHT_TTL_SECS, IN_FLIGHT_TTI_SECS);
        let send_packet_events = counter_new(
            meter,
            "send_packet_events",
            "Number of SendPacket events received",
        )?;
        let acknowledgement_events = counter_new(
            meter,
            "acknowledgement_events",
            "Number of WriteAcknowledgement events received",
        )?;
        let timeout_events = counter_new(
            meter,
            "timeout_events",
            "Number of TimeoutPacket events received",
        )?;
        let cleared_send_packet_events = counter_new(
            meter,
            "cleared_send_packet_events",
            "Number of SendPacket events received during the initial and periodic clearing",
        )?;
        let cleared_acknowledgment_events = counter_new(
            meter,
            "cleared_acknowledgment_events",
            "Number of WriteAcknowledgement events received during the initial and periodic clearing",
        )?;
        let backlog_oldest_sequence = gauge_new(
            meter,
            "backlog_oldest_sequence",
            "Sequence number of the oldest SendPacket event in the backlog",
            "",
        )?;
        let backlog_latest_update_timestamp = gauge_new(
            meter,
            "backlog_latest_update_timestamp",
            "Local timestamp for the last time the backlog metrics have been updated",
            "seconds",
        )?;
        let backlog_size = gauge_new(
            meter,
            "backlog_size",
            "Total number of SendPacket events in the backlog",
            "",
        )?;
        let backlogs = path_table_new();
        let fee_amounts = counter_new(
            meter,
            "ics29_fee_amounts",
            "Total amount received from ICS29 fees",
        )?;
        let visible_fee_addresses = address_set_new();
        let cached_fees: Vec<moka::sync::Cache<String, u64>> = Vec::new();
        let period_fees = gauge_new(
            meter,
            "ics29_period_fees",
            "Amount of ICS29 fees rewarded over the past 7 days",
            "",
        )?;
        let broadcast_errors = counter_new(
            meter,
            "broadcast_errors",
            "Number of errors observed when broadcasting a Tx",
        )?;
        let simulate_errors = counter_new(
            meter,
            "simulate_errors",
            "Number of errors observed when simulating a Tx",
        )?;
        let filtered_packets = counter_new(
            meter,
            "filtered_packets",
            "Number of ICS-20 packets filtered because the memo and/or the receiver fields were exceeding the configured limits",
        )?;
        let cross_chain_queries = counter_new(
            meter,
            "cross_chain_queries",
            "Number of ICS-31 queries received",
        )?;
        let cross_chain_query_responses = counter_new(
            meter,
            "cross_chain_query_responses",
            "Number of ICS-31 successful query responses",
        )?;
        let cross_chain_query_error_responses = counter_new(
            meter,
            "cross_chain_query_error_responses",
            "Number of ICS-31 error query responses",
        )?;
        Some(
            TelemetryState {
                registry,
                workers,
                client_updates_submitted,
                client_updates_skipped,
                client_misbehaviours_submitted,
                receive_packets_confirmed,
                acknowledgment_packets_confirmed,
                timeout_packets_confirmed,
                queries,
                queries_cache_hits,
                ws_reconnect,
                ws_events,
                messages_submitted,
                tx_latency_submitted,
                tx_latency_confirmed,
                in_flight_events,
                send_packet_events,
                acknowledgement_events,
                timeout_events,
                cleared_send_packet_events,
                cleared_acknowledgment_events,
                backlog_oldest_sequence,
                backlog_latest_update_timestamp,
                backlog_size,
                backlogs,
                fee_amounts,
                visible_fee_addresses,
                cached_fees,
                period_fees,
                broadcast_errors,
                simulate_errors,
                filtered_packets,
                cross_chain_queries,
                cross_chain_query_responses,
                cross_chain_query_error_responses,
            },
        )
    }

    /// Snapshot of every metric family currently registered, for export.
    pub fn gather(&self) -> Vec<prometheus::proto::MetricFamily> {
        registry_gather(&self.registry)
    }

    /// Records that `seq_nr` is now pending on the given path: the relayer
    /// observed a send-packet event. Past the reset threshold the smallest
    /// pending sequence is evicted first; the per-path gauges are refreshed.
    pub fn backlog_insert(
        &mut self,
        seq_nr: u64,
        chain_id: &str,
        channel_id: &str,
        port_id: &str,
        counterparty_chain_id: &str,
    )
        ensures
            (*final(self) == (TelemetryState {
                backlogs: final(self).backlogs,
                backlog_oldest_sequence: final(self).backlog_oldest_sequence,
                backlog_latest_update_timestamp: final(self).backlog_latest_update_timestamp,
                backlog_size: final(self).backlog_size,
                ..*old(self)
            })),
            exists|ts: u64|
                #[trigger] backlog_insert_transition(
                    *old(self),
                    *final(self),
                    (chain_id@, channel_id@, port_id@),
                    counterparty_chain_id@,
                    seq_nr,
                    ts,
                ),
    {
        let ghost path: (Seq<char>, Seq<char>, Seq<char>) = (chain_id@, channel_id@, port_id@);
        let path_uid = PathIdentifier::new(
            chain_id.to_owned(),
            channel_id.to_owned(),
            port_id.to_owned(),
        );
        let labels = make_path_labels(chain_id, counterparty_chain_id, channel_id, port_id);
        let timestamp = now_unix_millis() / 1000;
        let ghost before = backlog_at(*old(self), path);
        let mut inner = match path_table_take(&mut self.backlogs, &path_uid) {
            Some(m) => m,
            None => sequence_map_new(BACKLOG_CAPACITY),
        };
        proof {
            assert(sequence_map_model(inner) =~= before);
        }
        let keys_before = sequence_map_keys(&inner);
        proof {
            lemma_keys_characterize(keys_before@, before.dom());
        }
        if keys_before.len() > BACKLOG_RESET_THRESHOLD {
            if let Some(min) = min_of_keys(&keys_before) {
                proof {
                    assert(before.dom().contains(min));
                    assert forall|k: u64| before.dom().contains(k) implies min <= k by {
                        assert(keys_before@.contains(k));
                    }
                    assert(is_oldest(before.dom(), min));
                    lemma_oldest_pin(before.dom(), min);
                }
                let _ = sequence_map_remove(&mut inner, min);
            }
        }
        sequence_map_insert(&mut inner, seq_nr, timestamp);
        let ghost after = backlog_insert_step(before, seq_nr, timestamp);
        proof {
            assert(sequence_map_model(inner) =~= after);
        }
        let keys_after = sequence_map_keys(&inner);
        proof {
            lemma_keys_characterize(keys_after@, after.dom());
        }
        let oldest = match min_of_keys(&keys_after) {
            Some(min) => {
                proof {
                    assert(after.dom().contains(min));
                    assert forall|k: u64| after.dom().contains(k) implies min <= k by {
                        assert(keys_after@.contains(k));
                    }
                    assert(is_oldest(after.dom(), min));
                    lemma_oldest_pin(after.dom(), min);
                }
                min
            },
            None => EMPTY_BACKLOG_SYMBOL,
        };
        let total = keys_after.len() as u64;
        path_table_put(&mut self.backlogs, path_uid, inner);
        proof {
            assert(path_table_model(self.backlogs) =~= path_table_model(old(self).backlogs).insert(
                path,
                after,
            ));
        }
        gauge_observe(&mut self.backlog_oldest_sequence, oldest, &labels);
        gauge_observe(&mut self.backlog_latest_update_timestamp, timestamp, &labels);
        gauge_observe(&mut self.backlog_size, total, &labels);
        proof {
            assert(backlog_insert_transition(
                *old(self),
                *self,
                path,
                counterparty_chain_id@,
                seq_nr,
                timestamp,
            ));
        }
    }

    /// Drops `seq_nr` from the given path's backlog if it is pending: the
    /// relayer observed an acknowledgement or timeout for the packet. On a
    /// removal the per-path gauges are refreshed; otherwise nothing changes.
    pub fn backlog_remove(
        &mut self,
        seq_nr: u64,
        chain_id: &str,
        channel_id: &str,
        port_id: &str,
        counterparty_chain_id: &str,
    )
        ensures
            (*final(self) == (TelemetryState {
                backlogs: final(self).backlogs,
                backlog_oldest_sequence: final(self).backlog_oldest_sequence,
                backlog_latest_update_timestamp: final(self).backlog_latest_update_timestamp,
                backlog_size: final(self).backlog_size,
                ..*old(self)
            })),
            exists|ts: u64|
                #[trigger] backlog_remove_transition(
                    *old(self),
                    *final(self),
                    (chain_id@, channel_id@, port_id@),
                    counterparty_chain_id@,
                    seq_nr,
                    ts,
                ),
    {
        let ghost path: (Seq<char>, Seq<char>, Seq<char>) = (chain_id@, channel_id@, port_id@);
        let path_uid = PathIdentifier::new(
            chain_id.to_owned(),
            channel_id.to_owned(),
            port_id.to_owned(),
        );
        let labels = make_path_labels(chain_id, counterparty_chain_id, channel_id, port_id);
        let timestamp = now_unix_millis() / 1000;
        let ghost before = backlog_at(*old(self), path);
        match path_table_take(&mut self.backlogs, &path_uid) {
            Some(mut inner) => {
                let removed = sequence_map_remove(&mut inner, seq_nr);
                let ghost after = before.remove(seq_nr);
                proof {
                    assert(sequence_map_model(inner) =~= after);
                }
                if removed.is_some() {
                    let keys_after = sequence_map_keys(&inner);
                    proof {
                        lemma_keys_characterize(keys_after@, after.dom());
                    }
                    let oldest = match min_of_keys(&keys_after) {
                        Some(min) => {
                            proof {
                                assert(after.dom().contains(min));
                                assert forall|k: u64| after.dom().contains(k) implies min <= k by {
                                    assert(keys_after@.contains(k));
                                }
                                assert(is_oldest(after.dom(), min));
                                lemma_oldest_pin(after.dom(), min);
                            }
                            min
                        },
                        None => {
                            proof {
                                assert(is_oldest(after.dom(), EMPTY_BACKLOG_SYMBOL));
                                lemma_oldest_pin(after.dom(), EMPTY_BACKLOG_SYMBOL);
                            }
                            EMPTY_BACKLOG_SYMBOL
                        },
                    };
                    let total = keys_after.len() as u64;
                    path_table_put(&mut self.backlogs, path_uid, inner);
                    proof {
                        assert(path_table_model(self.backlogs) =~= path_table_model(
                            old(self).backlogs,
                        ).insert(path, after));
                    }
                    gauge_observe(&mut self.backlog_latest_update_timestamp, timestamp, &labels);
                    gauge_observe(&mut self.backlog_oldest_sequence, oldest, &labels);
                    gauge_observe(&mut self.backlog_size, total, &labels);
                    proof {
                        assert(backlog_remove_transition(
                            *old(self),
                            *self,
                            path,
                            counterparty_chain_id@,
                            seq_nr,
                            timestamp,
                        ));
                    }
                } else {
                    proof {
                        assert(!before.dom().contains(seq_nr));
                        assert(sequence_map_model(inner) =~= before);
                    }
                    path_table_put(&mut self.backlogs, path_uid, inner);
                    proof {
                        assert(path_table_model(self.backlogs) =~= path_table_model(
                            old(self).backlogs,
                        ));
                        assert(backlog_remove_transition(
                            *old(self),
                            *self,
                            path,
                            counterparty_chain_id@,
                            seq_nr,
                            timestamp,
                        ));
                    }
                }
            },
            None => {
                proof {
                    assert(path_table_model(self.backlogs) =~= path_table_model(
                        old(self).backlogs,
                    ));
                    assert(backlog_remove_transition(
                        *old(self),
                        *self,
                        path,
                        counterparty_chain_id@,
                        seq_nr,
                        timestamp,
                    ));
                }
            },
        }
    }

    /// Reconciles the given path's backlog against a ground-truth listing of
    /// the pending sequences. An empty listing removes every tracked sequence
    /// one at a time, so the update timestamp only moves when something was
    /// pending; a non-empty listing replaces the backlog outright and inserts
    /// each listed sequence afresh.
    #[verifier::loop_isolation(false)]
    pub fn update_backlog(
        &mut self,
        sequences: Vec<u64>,
        chain_id: &str,
        channel_id: &str,
        port_id: &str,
        counterparty_chain_id: &str,
    )
        ensures
            (*final(self) == (TelemetryState {
                backlogs: final(self).backlogs,
                backlog_oldest_sequence: final(self).backlog_oldest_sequence,
                backlog_latest_update_timestamp: final(self).backlog_latest_update_timestamp,
                backlog_size: final(self).backlog_size,
                ..*old(self)
            })),
            update_backlog_transition(
                *old(self),
                *final(self),
                (chain_id@, channel_id@, port_id@),
                counterparty_chain_id@,
                sequences@,
            ),
    {
        let ghost path: (Seq<char>, Seq<char>, Seq<char>) = (chain_id@, channel_id@, port_id@);
        let ghost labels = path_labels(chain_id@, counterparty_chain_id@, channel_id@, port_id@);
        let ghost before = backlog_at(*old(self), path);
        let path_uid = PathIdentifier::new(
            chain_id.to_owned(),
            channel_id.to_owned(),
            port_id.to_owned(),
        );
        if sequences.len() == 0 {
            let keys = match path_table_take(&mut self.backlogs, &path_uid) {
                Some(inner) => {
                    let ks = sequence_map_keys(&inner);
                    path_table_put(&mut self.backlogs, path_uid, inner);
                    proof {
                        assert(path_table_model(self.backlogs) =~= path_table_model(
                            old(self).backlogs,
                        ));
                        lemma_keys_characterize(ks@, before.dom());
                    }
                    ks
                },
                None => {
                    proof {
                        assert(path_table_model(self.backlogs) =~= path_table_model(
                            old(self).backlogs,
                        ));
                    }
                    return ;
                },
            };
            let ghost pre_loop = *self;
            let mut i: usize = 0;
            while i < keys.len()
                invariant
                    0 <= i <= keys@.len(),
                    keys@.no_duplicates(),
                    forall|k: u64| keys@.contains(k) <==> before.dom().contains(k),
                    pre_loop == (TelemetryState {
                        backlogs: pre_loop.backlogs,
                        ..*old(self)
                    }),
                    path_table_model(pre_loop.backlogs) == path_table_model(old(self).backlogs),
                    path_table_model(pre_loop.backlogs).dom().contains(path),
                    gauge_values(pre_loop.backlog_oldest_sequence) == gauge_values(
                        old(self).backlog_oldest_sequence,
                    ),
                    gauge_values(pre_loop.backlog_latest_update_timestamp) == gauge_values(
                        old(self).backlog_latest_update_timestamp,
                    ),
                    gauge_values(pre_loop.backlog_size) == gauge_values(old(self).backlog_size),
                    *self == (TelemetryState {
                        backlogs: self.backlogs,
                        backlog_oldest_sequence: self.backlog_oldest_sequence,
                        backlog_latest_update_timestamp: self.backlog_latest_update_timestamp,
                        backlog_size: self.backlog_size,
                        ..pre_loop
                    }),
                    backlog_at(*self, path) =~= before.remove_keys(
                        keys@.take(i as int).to_set(),
                    ),
                    path_table_model(self.backlogs) == path_table_model(
                        pre_loop.backlogs,
                    ).insert(path, backlog_at(*self, path)),
                    i == 0 ==> gauge_values(self.backlog_oldest_sequence) == gauge_values(
                        pre_loop.backlog_oldest_sequence,
                    ) && gauge_values(self.backlog_size) == gauge_values(pre_loop.backlog_size)
                        && gauge_values(self.backlog_latest_update_timestamp) == gauge_values(
                        pre_loop.backlog_latest_update_timestamp,
                    ),
                    i > 0 ==> gauge_values(self.backlog_oldest_sequence) == gauge_values(
                        pre_loop.backlog_oldest_sequence,
                    ).insert(labels, oldest_in(backlog_at(*self, path).dom()))
                        && gauge_values(self.backlog_size) == gauge_values(
                        pre_loop.backlog_size,
                    ).insert(labels, backlog_at(*self, path).dom().len() as u64) && exists|ts: u64|
                        gauge_values(self.backlog_latest_update_timestamp) == gauge_values(
                            pre_loop.backlog_latest_update_timestamp,
                        ).insert(labels, ts),
                decreases keys@.len() - i,
            {
                let ghost prev = *self;
                let ghost cur = backlog_at(prev, path);
                proof {
                    assert(keys@.contains(keys@[i as int]));
                    assert(cur.dom().contains(keys@[i as int])) by {
                        assert(before.dom().contains(keys@[i as int]));
                        assert(!keys@.take(i as int).contains(keys@[i as int]));
                    }
                }
                self.backlog_remove(
                    keys[i],
                    chain_id,
                    channel_id,
                    port_id,
                    counterparty_chain_id,
                );
                proof {
                    assert(exists|ts: u64|
                        backlog_remove_transition(
                            prev,
                            *self,
                            (chain_id@, channel_id@, port_id@),
                            counterparty_chain_id@,
                            keys@[i as int],
                            ts,
                        ));
                    let ts = extract_remove_ts(
                        prev,
                        *self,
                        (chain_id@, channel_id@, port_id@),
                        counterparty_chain_id@,
                        keys@[i as int],
                    );
                    assert(keys@.take(i + 1 as int) =~= keys@.take(i as int).push(
                        keys@[i as int],
                    ));
                    keys@.take(i as int).lemma_push_to_set_commute(keys@[i as int]);
                    assert(backlog_at(*self, path) =~= before.remove_keys(
                        keys@.take(i + 1 as int).to_set(),
                    ));
                    assert(path_table_model(self.backlogs) =~= path_table_model(
                        pre_loop.backlogs,
                    ).insert(path, backlog_at(*self, path)));
                    if i > 0 {
                        assert(gauge_values(self.backlog_oldest_sequence) =~= gauge_values(
                            pre_loop.backlog_oldest_sequence,
                        ).insert(labels, oldest_in(backlog_at(*self, path).dom())));
                        assert(gauge_values(self.backlog_size) =~= gauge_values(
                            pre_loop.backlog_size,
                        ).insert(labels, backlog_at(*self, path).dom().len() as u64));
                        assert(gauge_values(self.backlog_latest_update_timestamp) =~= gauge_values(
                            pre_loop.backlog_latest_update_timestamp,
                        ).insert(labels, ts));
                    }
                }
                i = i + 1;
            }
            proof {
                assert(keys@.take(keys@.len() as int) =~= keys@);
                assert(backlog_at(*self, path).dom() =~= Set::<u64>::empty());
                if keys@.len() == 0 {
                    assert(before.dom().len() == 0);
                    assert(backlog_at(*self, path) =~= before);
                    assert(path_table_model(self.backlogs) =~= path_table_model(
                        old(self).backlogs,
                    ));
                } else {
                    assert(before.dom().len() > 0);
                    lemma_oldest_pin(backlog_at(*self, path).dom(), EMPTY_BACKLOG_SYMBOL);
                }
            }
        } else {
            let _ = path_table_take(&mut self.backlogs, &path_uid);
            let ghost pre_loop = *self;
            let mut i: usize = 0;
            while i < sequences.len()
                invariant
                    0 <= i <= sequences@.len(),
                    pre_loop == (TelemetryState {
                        backlogs: pre_loop.backlogs,
                        ..*old(self)
                    }),
                    path_table_model(pre_loop.backlogs) == path_table_model(
                        old(self).backlogs,
                    ).remove(path),
                    gauge_values(pre_loop.backlog_oldest_sequence) == gauge_values(
                        old(self).backlog_oldest_sequence,
                    ),
                    gauge_values(pre_loop.backlog_latest_update_timestamp) == gauge_values(
                        old(self).backlog_latest_update_timestamp,
                    ),
                    gauge_values(pre_loop.backlog_size) == gauge_values(old(self).backlog_size),
                    *self == (TelemetryState {
                        backlogs: self.backlogs,
                        backlog_oldest_sequence: self.backlog_oldest_sequence,
                        backlog_latest_update_timestamp: self.backlog_latest_update_timestamp,
                        backlog_size: self.backlog_size,
                        ..pre_loop
                    }),
                    backlog_at(*self, path).dom() == replace_dom_fold(
                        sequences@.take(i as int),
                    ),
                    i == 0 ==> path_table_model(self.backlogs) == path_table_model(
                        pre_loop.backlogs,
                    ) && gauge_values(self.backlog_oldest_sequence) == gauge_values(
                        pre_loop.backlog_oldest_sequence,
                    ) && gauge_values(self.backlog_size) == gauge_values(pre_loop.backlog_size)
                        && gauge_values(self.backlog_latest_update_timestamp) == gauge_values(
                        pre_loop.backlog_latest_update_timestamp,
                    ),
                    i > 0 ==> path_table_model(self.backlogs) == path_table_model(
                        pre_loop.backlogs,
                    ).insert(path, backlog_at(*self, path)) && gauge_values(
                        self.backlog_oldest_sequence,
                    ) == gauge_values(pre_loop.backlog_oldest_sequence).insert(
                        labels,
                        oldest_in(backlog_at(*self, path).dom()),
                    ) && gauge_values(self.backlog_size) == gauge_values(
                        pre_loop.backlog_size,
                    ).insert(labels, backlog_at(*self, path).dom().len() as u64) && exists|ts: u64|
                        gauge_values(self.backlog_latest_update_timestamp) == gauge_values(
                            pre_loop.backlog_latest_update_timestamp,
                        ).insert(labels, ts),
                decreases sequences@.len() - i,
            {
                let ghost prev = *self;
                let ghost cur = backlog_at(prev, path);
                self.backlog_insert(
                    sequences[i],
                    chain_id,
                    channel_id,
                    port_id,
                    counterparty_chain_id,
                );
                proof {
                    assert(exists|ts: u64|
                        backlog_insert_transition(
                            prev,
                            *self,
                            (chain_id@, channel_id@, port_id@),
                            counterparty_chain_id@,
                            sequences@[i as int],
                            ts,
                        ));
                    let ts = extract_insert_ts(
                        prev,
                        *self,
                        (chain_id@, channel_id@, port_id@),
                        counterparty_chain_id@,
                        sequences@[i as int],
                    );
                    lemma_insert_step_dom(cur, sequences@[i as int], ts);
                    assert(sequences@.take(i + 1 as int).drop_last() =~= sequences@.take(
                        i as int,
                    ));
                    assert(sequences@.take(i + 1 as int).last() == sequences@[i as int]);
                    assert(sequences@.take(i + 1 as int).len() == i + 1);
                    assert(backlog_at(*self, path).dom() =~= replace_dom_fold(
                        sequences@.take(i + 1 as int),
                    ));
                    assert(path_table_model(self.backlogs) =~= path_table_model(
                        pre_loop.backlogs,
                    ).insert(path, backlog_at(*self, path)));
                    if i > 0 {
                        assert(gauge_values(self.backlog_oldest_sequence) =~= gauge_values(
                            pre_loop.backlog_oldest_sequence,
                        ).insert(labels, oldest_in(backlog_at(*self, path).dom())));
                        assert(gauge_values(self.backlog_size) =~= gauge_values(
                            pre_loop.backlog_size,
                        ).insert(labels, backlog_at(*self, path).dom().len() as u64));
                        assert(gauge_values(self.backlog_latest_update_timestamp) =~= gauge_values(
                            pre_loop.backlog_latest_update_timestamp,
                        ).insert(labels, ts));
                    }
                }
                i = i + 1;
            }
            proof {
                assert(sequences@.take(sequences@.len() as int) =~= sequences@);
                assert(path_table_model(self.backlogs) =~= path_table_model(
                    old(self).backlogs,
                ).insert(path, backlog_at(*self, path)));
            }
        }
    }

    /// Records that processing of the event batch tracked by `tracking_id`
    /// started now, overwriting any prior start for the same identifier.
    /// The correlation cache is one the constructor built, so a write
    /// outlives the call.
    pub fn received_event_batch(&mut self, tracking_id: &str)
        requires
            cache_keeps_writes(old(self).in_flight_events),
        ensures
            (*final(self) == (TelemetryState {
                in_flight_events: final(self).in_flight_events,
                ..*old(self)
            })),
            cache_keeps_writes(final(self).in_flight_events),
            exists|start: u64|
                {
                    &&& #[trigger] cache_model(final(self).in_flight_events).submap_of(
                        cache_model(old(self).in_flight_events).insert(tracking_id@, start),
                    )
                    &&& cache_model(final(self).in_flight_events).dom().contains(tracking_id@)
                    &&& cache_model(final(self).in_flight_events)[tracking_id@] == start
                },
    {
        let now = now_unix_millis();
        cache_insert(&mut self.in_flight_events, tracking_id, now);
    }

    /// Records the latency between receiving the batch tracked by
    /// `tracking_id` and submitting its transactions, once per submitted
    /// transaction. When the batch is unknown or expired nothing is recorded.
    #[verifier::loop_isolation(false)]
    pub fn tx_submitted(
        &mut self,
        tx_count: usize,
        tracking_id: &str,
        chain_id: &str,
        channel_id: &str,
        port_id: &str,
        counterparty_chain_id: &str,
    )
        ensures
            (*final(self) == (TelemetryState {
                in_flight_events: final(self).in_flight_events,
                tx_latency_submitted: final(self).tx_latency_submitted,
                ..*old(self)
            })),
            cache_model(final(self).in_flight_events).submap_of(
                cache_model(old(self).in_flight_events),
            ),
            cache_keeps_writes(old(self).in_flight_events) ==> cache_keeps_writes(
                final(self).in_flight_events,
            ),
            histogram_events(final(self).tx_latency_submitted) != histogram_events(
                old(self).tx_latency_submitted,
            ) ==> cache_model(final(self).in_flight_events).dom().contains(tracking_id@)
                && cache_model(old(self).in_flight_events).dom().contains(tracking_id@)
                && cache_model(final(self).in_flight_events)[tracking_id@] == cache_model(
                old(self).in_flight_events,
            )[tracking_id@],
            !cache_model(final(self).in_flight_events).dom().contains(tracking_id@)
                ==> histogram_events(final(self).tx_latency_submitted) == histogram_events(
                old(self).tx_latency_submitted,
            ),
            cache_model(final(self).in_flight_events).dom().contains(tracking_id@) ==> exists|
                now: u64,
            |
                histogram_events(final(self).tx_latency_submitted) == histogram_events(
                    old(self).tx_latency_submitted,
                ).add(
                    #[trigger] repeat_sample(
                        path_labels(chain_id@, counterparty_chain_id@, channel_id@, port_id@),
                        elapsed_millis(now, cache_model(final(self).in_flight_events)[tracking_id@]),
                        tx_count as nat,
                    ),
                ),
    {
        let labels = make_path_labels(chain_id, counterparty_chain_id, channel_id, port_id);
        match cache_get(&mut self.in_flight_events, tracking_id) {
            Some(start) => {
                let now = now_unix_millis();
                let latency = if now >= start {
                    now - start
                } else {
                    0
                };
                proof {
                    assert(latency == elapsed_millis(now, start));
                }
                let ghost mid = *self;
                let mut i: usize = 0;
                while i < tx_count
                    invariant
                        0 <= i <= tx_count,
                        *self == (TelemetryState {
                            tx_latency_submitted: self.tx_latency_submitted,
                            ..mid
                        }),
                        histogram_events(self.tx_latency_submitted) == histogram_events(
                            mid.tx_latency_submitted,
                        ).add(
                            repeat_sample(
                                path_labels(
                                    chain_id@,
                                    counterparty_chain_id@,
                                    channel_id@,
                                    port_id@,
                                ),
                                latency,
                                i as nat,
                            ),
                        ),
                    decreases tx_count - i,
                {
                    let ghost prior = histogram_events(self.tx_latency_submitted);
                    histogram_record(&mut self.tx_latency_submitted, latency, &labels);
                    proof {
                        assert(histogram_events(self.tx_latency_submitted) =~= histogram_events(
                            mid.tx_latency_submitted,
                        ).add(
                            repeat_sample(
                                path_labels(
                                    chain_id@,
                                    counterparty_chain_id@,
                                    channel_id@,
                                    port_id@,
                                ),
                                latency,
                                (i + 1) as nat,
                            ),
                        ));
                    }
                    i = i + 1;
                }
            },
            None => {
                proof {
                    assert(histogram_events(self.tx_latency_submitted).add(
                        repeat_sample(
                            path_labels(chain_id@, counterparty_chain_id@, channel_id@, port_id@),
                            0u64,
                            0nat,
                        ),
                    ) =~= histogram_events(self.tx_latency_submitted));
                }
            },
        }
    }

    /// Records the latency between receiving the batch tracked by
    /// `tracking_id` and confirming its transactions, once per confirmed
    /// transaction. When the batch is unknown or expired nothing is recorded.
    #[verifier::loop_isolation(false)]
    pub fn tx_confirmed(
        &mut self,
        tx_count: usize,
        tracking_id: &str,
        chain_id: &str,
        channel_id: &str,
        port_id: &str,
        counterparty_chain_id: &str,
    )
        ensures
            (*final(self) == (TelemetryState {
                in_flight_events: final(self).in_flight_events,
                tx_latency_confirmed: final(self).tx_latency_confirmed,
                ..*old(self)
            })),
            cache_model(final(self).in_flight_events).submap_of(
                cache_model(old(self).in_flight_events),
            ),
            cache_keeps_writes(old(self).in_flight_events) ==> cache_keeps_writes(
                final(self).in_flight_events,
            ),
            histogram_events(final(self).tx_latency_confirmed) != histogram_events(
                old(self).tx_latency_confirmed,
            ) ==> cache_model(final(self).in_flight_events).dom().contains(tracking_id@)
                && cache_model(old(self).in_flight_events).dom().contains(tracking_id@)
                && cache_model(final(self).in_flight_events)[tracking_id@] == cache_model(
                old(self).in_flight_events,
            )[tracking_id@],
            !cache_model(final(self).in_flight_events).dom().contains(tracking_id@)
                ==> histogram_events(final(self).tx_latency_confirmed) == histogram_events(
                old(self).tx_latency_confirmed,
            ),
            cache_model(final(self).in_flight_events).dom().contains(tracking_id@) ==> exists|
                now: u64,
            |
                histogram_events(final(self).tx_latency_confirmed) == histogram_events(
                    old(self).tx_latency_confirmed,
                ).add(
                    #[trigger] repeat_sample(
                        path_labels(chain_id@, counterparty_chain_id@, channel_id@, port_id@),
                        elapsed_millis(now, cache_model(final(self).in_flight_events)[tracking_id@]),
                        tx_count as nat,
                    ),
                ),
    {
        let labels = make_path_labels(chain_id, counterparty_chain_id, channel_id, port_id);
        match cache_get(&mut self.in_flight_events, tracking_id) {
            Some(start) => {
                let now = now_unix_millis();
                let latency = if now >= start {
                    now - start
                } else {
                    0
                };
                proof {
                    assert(latency == elapsed_millis(now, start));
                }
                let ghost mid = *self;
                let mut i: usize = 0;
                while i < tx_count
                    invariant
                        0 <= i <= tx_count,
                        *self == (TelemetryState {
                            tx_latency_confirmed: self.tx_latency_confirmed,
                            ..mid
                        }),
                        histogram_events(self.tx_latency_confirmed) == histogram_events(
                            mid.tx_latency_confirmed,
                        ).add(
                            repeat_sample(
                                path_labels(
                                    chain_id@,
                                    counterparty_chain_id@,
                                    channel_id@,
                                    port_id@,
                                ),
                                latency,
                                i as nat,
                            ),
                        ),
                    decreases tx_count - i,
                {
                    histogram_record(&mut self.tx_latency_confirmed, latency, &labels);
                    proof {
                        assert(histogram_events(self.tx_latency_confirmed) =~= histogram_events(
                            mid.tx_latency_confirmed,
                        ).add(
                            repeat_sample(
                                path_labels(
                                    chain_id@,
                                    counterparty_chain_id@,
                                    channel_id@,
                                    port_id@,
                                ),
                                latency,
                                (i + 1) as nat,
                            ),
                        ));
                    }
                    i = i + 1;
                }
            },
            None => {
                proof {
                    assert(histogram_events(self.tx_latency_confirmed).add(
                        repeat_sample(
                            path_labels(chain_id@, counterparty_chain_id@, channel_id@, port_id@),
                            0u64,
                            0nat,
                        ),
                    ) =~= histogram_events(self.tx_latency_confirmed));
                }
            },
        }
    }

    /// Sums the live fee records for `key`, clamped into a gauge value. Reads
    /// only: every record keeps its entries apart from expiry.
    #[verifier::loop_isolation(false)]
    fn window_sum_exec(&mut self, key: &str) -> (s: u64)
        ensures
            (*final(self) == (TelemetryState { cached_fees: final(self).cached_fees, ..*old(self) })),
            final(self).cached_fees@.len() == old(self).cached_fees@.len(),
            s == clamp_u64(window_sum(final(self).cached_fees@, key@)),
            forall|j: int|
                0 <= j < final(self).cached_fees@.len() ==> #[trigger] cache_model(
                    final(self).cached_fees@[j],
                ).submap_of(cache_model(old(self).cached_fees@[j])),
    {
        let mut sum: u64 = 0;
        let mut i: usize = 0;
        let n = self.cached_fees.len();
        while i < n
            invariant
                0 <= i <= n,
                (*self == (TelemetryState { cached_fees: self.cached_fees, ..*old(self) })),
                self.cached_fees@.len() == n,
                sum == clamp_u64(window_sum(self.cached_fees@.take(i as int), key@)),
                forall|j: int|
                    i <= j < n ==> self.cached_fees@[j] == old(self).cached_fees@[j],
                forall|j: int|
                    0 <= j < i ==> #[trigger] cache_model(self.cached_fees@[j]).submap_of(
                        cache_model(old(self).cached_fees@[j]),
                    ),
            decreases n - i,
        {
            let ghost pre = self.cached_fees@;
            let got = cache_list_get(&mut self.cached_fees, i, key);
            proof {
                assert(self.cached_fees@.take(i as int) =~= pre.take(i as int));
                assert(self.cached_fees@.take(i + 1 as int).drop_last() =~= self.cached_fees@.take(
                    i as int,
                ));
                lemma_window_sum_nonneg(self.cached_fees@.take(i as int), key@);
            }
            let v = match got {
                Some(v) => v,
                None => 0,
            };
            sum = if sum <= u64::MAX - v {
                sum + v
            } else {
                u64::MAX
            };
            proof {
                assert(sum == clamp_u64(window_sum(self.cached_fees@.take(i + 1 as int), key@)));
            }
            i = i + 1;
        }
        proof {
            assert(self.cached_fees@.take(n as int) =~= self.cached_fees@);
        }
        sum
    }

    /// Records a rewarded fee of `fee_amount` under (chain, receiver, denom),
    /// provided the receiver opted into fee visibility; otherwise nothing at
    /// all changes. A visible reward raises the running total, adds a fee
    /// record that lives for the window, and re-emits the windowed sum.
    pub fn fees_amount(&mut self, chain_id: &str, receiver: &str, denom: &str, fee_amount: u64)
        ensures
            !address_set_model(old(self).visible_fee_addresses).contains(receiver@)
                ==> *final(self) == *old(self),
            address_set_model(old(self).visible_fee_addresses).contains(receiver@) ==> {
                let labels = fee_labels(chain_id@, receiver@, denom@);
                let key = fee_key_view(chain_id@, receiver@, denom@);
                &&& (*final(self) == (TelemetryState {
                    fee_amounts: final(self).fee_amounts,
                    cached_fees: final(self).cached_fees,
                    period_fees: final(self).period_fees,
                    ..*old(self)
                }))
                &&& counter_events(final(self).fee_amounts) == counter_events(
                    old(self).fee_amounts,
                ).insert((labels, fee_amount))
                &&& final(self).cached_fees@.len() == old(self).cached_fees@.len() + 1
                &&& forall|i: int|
                    0 <= i < old(self).cached_fees@.len() ==> #[trigger] cache_model(
                        final(self).cached_fees@[i],
                    ).submap_of(cache_model(old(self).cached_fees@[i]))
                &&& (cache_model(final(self).cached_fees@.last()) == Map::<Seq<char>, u64>::empty(
                ).insert(key, fee_amount))
                &&& gauge_values(final(self).period_fees) == gauge_values(
                    old(self).period_fees,
                ).insert(labels, clamp_u64(window_sum(final(self).cached_fees@, key)))
            },
    {
        if !address_set_contains(&self.visible_fee_addresses, receiver) {
            return ;
        }
        let labels = make_fee_labels(chain_id, receiver, denom);
        let key = make_fee_key(chain_id, receiver, denom);
        counter_add(&mut self.fee_amounts, fee_amount, &labels);
        let rest = self.window_sum_exec(key.as_str());
        let mut record = cache_new(FEE_LIFETIME_SECS, FEE_LIFETIME_SECS);
        cache_insert(&mut record, key.as_str(), fee_amount);
        proof {
            assert(cache_model(record) =~= Map::<Seq<char>, u64>::empty().insert(
                fee_key_view(chain_id@, receiver@, denom@),
                fee_amount,
            ));
        }
        let ghost pre_push = self.cached_fees@;
        self.cached_fees.push(record);
        let sum = if rest <= u64::MAX - fee_amount {
            rest + fee_amount
        } else {
            u64::MAX
        };
        proof {
            assert(self.cached_fees@.drop_last() =~= pre_push);
            lemma_window_sum_nonneg(pre_push, fee_key_view(chain_id@, receiver@, denom@));
            assert(sum == clamp_u64(window_sum(
                self.cached_fees@,
                fee_key_view(chain_id@, receiver@, denom@),
            )));
        }
        gauge_observe(&mut self.period_fees, sum, &labels);
    }

    /// Recomputes and re-emits the windowed fee sum for (chain, receiver,
    /// denom) without recording a new reward, so the gauge reflects decay.
    pub fn update_period_fees(&mut self, chain_id: &str, receiver: &str, denom: &str)
        ensures
            (*final(self) == (TelemetryState {
                cached_fees: final(self).cached_fees,
                period_fees: final(self).period_fees,
                ..*old(self)
            })),
            final(self).cached_fees@.len() == old(self).cached_fees@.len(),
            forall|i: int|
                0 <= i < final(self).cached_fees@.len() ==> #[trigger] cache_model(
                    final(self).cached_fees@[i],
                ).submap_of(cache_model(old(self).cached_fees@[i])),
            gauge_values(final(self).period_fees) == gauge_values(old(self).period_fees).insert(
                fee_labels(chain_id@, receiver@, denom@),
                clamp_u64(
                    window_sum(
                        final(self).cached_fees@,
                        fee_key_view(chain_id@, receiver@, denom@),
                    ),
                ),
            ),
    {
        let labels = make_fee_labels(chain_id, receiver, denom);
        let key = make_fee_key(chain_id, receiver, denom);
        let sum = self.window_sum_exec(key.as_str());
        gauge_observe(&mut self.period_fees, sum, &labels);
    }

    /// Adds an address to the set whose rewarded fees are recorded. The set
    /// only ever grows.
    pub fn add_visible_fee_address(&mut self, address: String)
        ensures
            (*final(self) == (TelemetryState {
                visible_fee_addresses: final(self).visible_fee_addresses,
                ..*old(self)
            })),
            address_set_model(final(self).visible_fee_addresses) == address_set_model(
                old(self).visible_fee_addresses,
            ).insert(address@),
    {
        address_set_insert(&mut self.visible_fee_addresses, address);
    }

    /// Adjusts the worker count of the given kind by `count`.
    pub fn worker(&mut self, worker_type: WorkerType, count: i64)
        ensures
            (*final(self) == (TelemetryState { workers: final(self).workers, ..*old(self) })),
            updown_events(final(self).workers) == updown_events(old(self).workers).insert(
                (worker_labels(worker_type.label_view()), count),
            ),
    {
        let name = worker_type.as_label();
        let labels = make_worker_labels(name.as_str());
        updown_add(&mut self.workers, count, &labels);
    }

    /// Registers the worker counter of the given kind with a zero adjustment.
    pub fn init_worker_by_type(&mut self, worker_type: WorkerType)
        ensures
            (*final(self) == (TelemetryState { workers: final(self).workers, ..*old(self) })),
            updown_events(final(self).workers) == updown_events(old(self).workers).insert(
                (worker_labels(worker_type.label_view()), 0i64),
            ),
    {
        self.worker(worker_type, 0);
    }

    /// Pre-registers every per-query counter of one chain with a zero count.
    #[verifier::loop_isolation(false)]
    fn init_queries(&mut self, chain_id: &str)
        ensures
            (*final(self) == (TelemetryState {
                queries: final(self).queries,
                queries_cache_hits: final(self).queries_cache_hits,
                ..*old(self)
            })),
            counter_events(final(self).queries) == counter_events(old(self).queries).add(
                query_zero_events(chain_id@, spec_query_types()),
            ),
            counter_events(final(self).queries_cache_hits) == counter_events(
                old(self).queries_cache_hits,
            ).add(query_zero_events(chain_id@, spec_query_types_cache())),
    {
        let types = query_types();
        let mut i: usize = 0;
        while i < types.len()
            invariant
                0 <= i <= types@.len(),
                (*self == (TelemetryState { queries: self.queries, ..*old(self) })),
                counter_events(self.queries) == counter_events(old(self).queries).add(
                    query_zero_events(chain_id@, spec_query_types().take(i as int)),
                ),
            decreases types@.len() - i,
        {
            let labels = make_query_labels(chain_id, types[i]);
            counter_add(&mut self.queries, 0, &labels);
            proof {
                assert(spec_query_types().take(i + 1 as int).drop_last() =~= spec_query_types(
                ).take(i as int));
                assert(counter_events(self.queries) =~= counter_events(old(self).queries).add(
                    query_zero_events(chain_id@, spec_query_types().take(i + 1 as int)),
                ));
            }
            i = i + 1;
        }
        proof {
            assert(spec_query_types().take(spec_query_types().len() as int) =~= spec_query_types());
        }
        let ghost mid = *self;
        let cache_types = query_types_cache();
        let mut j: usize = 0;
        while j < cache_types.len()
            invariant
                0 <= j <= cache_types@.len(),
                (*self == (TelemetryState { queries_cache_hits: self.queries_cache_hits, ..mid })),
                counter_events(self.queries_cache_hits) == counter_events(
                    mid.queries_cache_hits,
                ).add(query_zero_events(chain_id@, spec_query_types_cache().take(j as int))),
            decreases cache_types@.len() - j,
        {
            let labels = make_query_labels(chain_id, cache_types[j]);
            counter_add(&mut self.queries_cache_hits, 0, &labels);
            proof {
                assert(spec_query_types_cache().take(j + 1 as int).drop_last()
                    =~= spec_query_types_cache().take(j as int));
                assert(counter_events(self.queries_cache_hits) =~= counter_events(
                    mid.queries_cache_hits,
                ).add(query_zero_events(chain_id@, spec_query_types_cache().take(j + 1 as int))));
            }
            j = j + 1;
        }
        proof {
            assert(spec_query_types_cache().take(spec_query_types_cache().len() as int)
                =~= spec_query_types_cache());
        }
    }

    /// Pre-registers every per-chain counter of one chain with a zero count.
    pub fn init_per_chain(&mut self, chain_id: &str)
        ensures
            (*final(self) == (TelemetryState {
                ws_reconnect: final(self).ws_reconnect,
                ws_events: final(self).ws_events,
                messages_submitted: final(self).messages_submitted,
                queries: final(self).queries,
                queries_cache_hits: final(self).queries_cache_hits,
                ..*old(self)
            })),
            counter_events(final(self).ws_reconnect) == counter_events(
                old(self).ws_reconnect,
            ).insert((chain_labels(chain_id@), 0u64)),
            counter_events(final(self).ws_events) == counter_events(old(self).ws_events).insert(
                (chain_labels(chain_id@), 0u64),
            ),
            counter_events(final(self).messages_submitted) == counter_events(
                old(self).messages_submitted,
            ).insert((chain_labels(chain_id@), 0u64)),
            counter_events(final(self).queries) == counter_events(old(self).queries).add(
                query_zero_events(chain_id@, spec_query_types()),
            ),
            counter_events(final(self).queries_cache_hits) == counter_events(
                old(self).queries_cache_hits,
            ).add(query_zero_events(chain_id@, spec_query_types_cache())),
    {
        let labels = make_chain_labels(chain_id);
        counter_add(&mut self.ws_reconnect, 0, &labels);
        counter_add(&mut self.ws_events, 0, &labels);
        counter_add(&mut self.messages_submitted, 0, &labels);
        self.init_queries(chain_id);
    }

    /// Pre-registers every per-channel counter of one channel with zero.
    pub fn init_per_channel(
        &mut self,
        src_chain: &str,
        dst_chain: &str,
        src_channel: &str,
        dst_channel: &str,
        src_port: &str,
        dst_port: &str,
    )
        ensures
            (*final(self) == (TelemetryState {
                receive_packets_confirmed: final(self).receive_packets_confirmed,
                acknowledgment_packets_confirmed: final(self).acknowledgment_packets_confirmed,
                timeout_packets_confirmed: final(self).timeout_packets_confirmed,
                ..*old(self)
            })),
            counter_events(final(self).receive_packets_confirmed) == counter_events(
                old(self).receive_packets_confirmed,
            ).insert(
                (
                    channel_labels(
                        src_chain@,
                        dst_chain@,
                        src_channel@,
                        dst_channel@,
                        src_port@,
                        dst_port@,
                    ),
                    0u64,
                ),
            ),
            counter_events(final(self).acknowledgment_packets_confirmed) == counter_events(
                old(self).acknowledgment_packets_confirmed,
            ).insert(
                (
                    channel_labels(
                        src_chain@,
                        dst_chain@,
                        src_channel@,
                        dst_channel@,
                        src_port@,
                        dst_port@,
                    ),
                    0u64,
                ),
            ),
            counter_events(final(self).timeout_packets_confirmed) == counter_events(
                old(self).timeout_packets_confirmed,
            ).insert(
                (
                    channel_labels(
                        src_chain@,
                        dst_chain@,
                        src_channel@,
                        dst_channel@,
                        src_port@,
                        dst_port@,
                    ),
                    0u64,
                ),
            ),
    {
        let labels = make_channel_labels(
            src_chain,
            dst_chain,
            src_channel,
            dst_channel,
            src_port,
            dst_port,
        );
        counter_add(&mut self.receive_packets_confirmed, 0, &labels);
        counter_add(&mut self.acknowledgment_packets_confirmed, 0, &labels);
        counter_add(&mut self.timeout_packets_confirmed, 0, &labels);
    }

    /// Pre-registers every per-path signal of one path: the event counters
    /// with zero (the clearing counters only when packet clearing is on), and
    /// the three backlog gauges at the empty sentinel.
    pub fn init_per_path(
        &mut self,
        chain: &str,
        counterparty: &str,
        channel: &str,
        port: &str,
        clear_packets: bool,
    )
        ensures
            (*final(self) == (TelemetryState {
                send_packet_events: final(self).send_packet_events,
                acknowledgement_events: final(self).acknowledgement_events,
                timeout_events: final(self).timeout_events,
                cleared_send_packet_events: final(self).cleared_send_packet_events,
                cleared_acknowledgment_events: final(self).cleared_acknowledgment_events,
                backlog_oldest_sequence: final(self).backlog_oldest_sequence,
                backlog_latest_update_timestamp: final(self).backlog_latest_update_timestamp,
                backlog_size: final(self).backlog_size,
                ..*old(self)
            })),
            ({
                let labels = path_labels(chain@, counterparty@, channel@, port@);
                &&& counter_events(final(self).send_packet_events) == counter_events(
                    old(self).send_packet_events,
                ).insert((labels, 0u64))
                &&& counter_events(final(self).acknowledgement_events) == counter_events(
                    old(self).acknowledgement_events,
                ).insert((labels, 0u64))
                &&& counter_events(final(self).timeout_events) == counter_events(
                    old(self).timeout_events,
                ).insert((labels, 0u64))
                &&& clear_packets ==> counter_events(final(self).cleared_send_packet_events)
                    == counter_events(old(self).cleared_send_packet_events).insert((labels, 0u64))
                    && counter_events(final(self).cleared_acknowledgment_events) == counter_events(
                    old(self).cleared_acknowledgment_events,
                ).insert((labels, 0u64))
                &&& !clear_packets ==> counter_events(final(self).cleared_send_packet_events)
                    == counter_events(old(self).cleared_send_packet_events) && counter_events(
                    final(self).cleared_acknowledgment_events,
                ) == counter_events(old(self).cleared_acknowledgment_events)
                &&& gauge_values(final(self).backlog_oldest_sequence) == gauge_values(
                    old(self).backlog_oldest_sequence,
                ).insert(labels, 0u64)
                &&& gauge_values(final(self).backlog_latest_update_timestamp) == gauge_values(
                    old(self).backlog_latest_update_timestamp,
                ).insert(labels, 0u64)
                &&& gauge_values(final(self).backlog_size) == gauge_values(
                    old(self).backlog_size,
                ).insert(labels, 0u64)
            }),
    {
        let labels = make_path_labels(chain, counterparty, channel, port);
        counter_add(&mut self.send_packet_events, 0, &labels);
        counter_add(&mut self.acknowledgement_events, 0, &labels);
        counter_add(&mut self.timeout_events, 0, &labels);
        if clear_packets {
            counter_add(&mut self.cleared_send_packet_events, 0, &labels);
            counter_add(&mut self.cleared_acknowledgment_events, 0, &labels);
        }
        gauge_observe(&mut self.backlog_oldest_sequence, 0, &labels);
        gauge_observe(&mut self.backlog_latest_update_timestamp, 0, &labels);
        gauge_observe(&mut self.backlog_size, 0, &labels);
    }

    /// Pre-registers every per-client counter of one client with zero; the
    /// misbehaviour counter only when misbehaviour detection is on.
    pub fn init_per_client(
        &mut self,
        src_chain: &str,
        dst_chain: &str,
        client: &str,
        misbehaviour: bool,
    )
        ensures
            (*final(self) == (TelemetryState {
                client_updates_submitted: final(self).client_updates_submitted,
                client_updates_skipped: final(self).client_updates_skipped,
                client_misbehaviours_submitted: final(self).client_misbehaviours_submitted,
                ..*old(self)
            })),
            counter_events(final(self).client_updates_submitted) == counter_events(
                old(self).client_updates_submitted,
            ).insert((client_labels(src_chain@, dst_chain@, client@), 0u64)),
            counter_events(final(self).client_updates_skipped) == counter_events(
                old(self).client_updates_skipped,
            ).insert((client_labels(src_chain@, dst_chain@, client@), 0u64)),
            misbehaviour ==> counter_events(final(self).client_misbehaviours_submitted)
                == counter_events(old(self).client_misbehaviours_submitted).insert(
                (client_labels(src_chain@, dst_chain@, client@), 0u64),
            ),
            !misbehaviour ==> counter_events(final(self).client_misbehaviours_submitted)
                == counter_events(old(self).client_misbehaviours_submitted),
    {
        let labels = make_client_labels(src_chain, dst_chain, client);
        counter_add(&mut self.client_updates_submitted, 0, &labels);
        counter_add(&mut self.client_updates_skipped, 0, &labels);
        if misbehaviour {
            counter_add(&mut self.client_misbehaviours_submitted, 0, &labels);
        }
    }

    /// Counts `count` client update messages submitted for one client.
    pub fn client_updates_submitted(
        &mut self,
        src_chain: &str,
        dst_chain: &str,
        client: &str,
        count: u64,
    )
        ensures
            (*final(self) == (TelemetryState {
                client_updates_submitted: final(self).client_updates_submitted,
                ..*old(self)
            })),
            counter_events(final(self).client_updates_submitted) == counter_events(
                old(self).client_updates_submitted,
            ).insert((client_labels(src_chain@, dst_chain@, client@), count)),
    {
        let labels = make_client_labels(src_chain, dst_chain, client);
        counter_add(&mut self.client_updates_submitted, count, &labels);
    }

    /// Counts `count` client update messages skipped for one client.
    pub fn client_updates_skipped(
        &mut self,
        src_chain: &str,
        dst_chain: &str,
        client: &str,
        count: u64,
    )
        ensures
            (*final(self) == (TelemetryState {
                client_updates_skipped: final(self).client_updates_skipped,
                ..*old(self)
            })),
            counter_events(final(self).client_updates_skipped) == counter_events(
                old(self).client_updates_skipped,
            ).insert((client_labels(src_chain@, dst_chain@, client@), count)),
    {
        let labels = make_client_labels(src_chain, dst_chain, client);
        counter_add(&mut self.client_updates_skipped, count, &labels);
    }

    /// Counts `count` misbehaviours detected and submitted for one client.
    pub fn client_misbehaviours_submitted(
        &mut self,
        src_chain: &str,
        dst_chain: &str,
        client: &str,
        count: u64,
    )
        ensures
            (*final(self) == (TelemetryState {
                client_misbehaviours_submitted: final(self).client_misbehaviours_submitted,
                ..*old(self)
            })),
            counter_events(final(self).client_misbehaviours_submitted) == counter_events(
                old(self).client_misbehaviours_submitted,
            ).insert((client_labels(src_chain@, dst_chain@, client@), count)),
    {
        let labels = make_client_labels(src_chain, dst_chain, client);
        counter_add(&mut self.client_misbehaviours_submitted, count, &labels);
    }

    /// Counts `count` confirmed receive packets on one channel; a zero count
    /// changes nothing.
    pub fn receive_packets_confirmed(
        &mut self,
        src_chain: &str,
        dst_chain: &str,
        src_channel: &str,
        dst_channel: &str,
        src_port: &str,
        dst_port: &str,
        count: u64,
    )
        ensures
            count == 0 ==> *final(self) == *old(self),
            count > 0 ==> (*final(self) == (TelemetryState {
                receive_packets_confirmed: final(self).receive_packets_confirmed,
                ..*old(self)
            })) && counter_events(final(self).receive_packets_confirmed) == counter_events(
                old(self).receive_packets_confirmed,
            ).insert(
                (
                    channel_labels(
                        src_chain@,
                        dst_chain@,
                        src_channel@,
                        dst_channel@,
                        src_port@,
                        dst_port@,
                    ),
                    count,
                ),
            ),
    {
        if count > 0 {
            let labels = make_channel_labels(
                src_chain,
                dst_chain,
                src_channel,
                dst_channel,
                src_port,
                dst_port,
            );
            counter_add(&mut self.receive_packets_confirmed, count, &labels);
        }
    }

    /// Counts `count` confirmed acknowledgment packets on one channel; a zero
    /// count changes nothing.
    pub fn acknowledgment_packets_confirmed(
        &mut self,
        src_chain: &str,
        dst_chain: &str,
        src_channel: &str,
        dst_channel: &str,
        src_port: &str,
        dst_port: &str,
        count: u64,
    )
        ensures
            count == 0 ==> *final(self) == *old(self),
            count > 0 ==> (*final(self) == (TelemetryState {
                acknowledgment_packets_confirmed: final(self).acknowledgment_packets_confirmed,
                ..*old(self)
            })) && counter_events(final(self).acknowledgment_packets_confirmed) == counter_events(
                old(self).acknowledgment_packets_confirmed,
            ).insert(
                (
                    channel_labels(
                        src_chain@,
                        dst_chain@,
                        src_channel@,
                        dst_channel@,
                        src_port@,
                        dst_port@,
                    ),
                    count,
                ),
            ),
    {
        if count > 0 {
            let labels = make_channel_labels(
                src_chain,
                dst_chain,
                src_channel,
                dst_channel,
                src_port,
                dst_port,
            );
            counter_add(&mut self.acknowledgment_packets_confirmed, count, &labels);
        }
    }

    /// Counts `count` confirmed timeout packets on one channel; a zero count
    /// changes nothing.
    pub fn timeout_packets_confirmed(
        &mut self,
        src_chain: &str,
        dst_chain: &str,
        src_channel: &str,
        dst_channel: &str,
        src_port: &str,
        dst_port: &str,
        count: u64,
    )
        ensures
            count == 0 ==> *final(self) == *old(self),
            count > 0 ==> (*final(self) == (TelemetryState {
                timeout_packets_confirmed: final(self).timeout_packets_confirmed,
                ..*old(self)
            })) && counter_events(final(self).timeout_packets_confirmed) == counter_events(
                old(self).timeout_packets_confirmed,
            ).insert(
                (
                    channel_labels(
                        src_chain@,
                        dst_chain@,
                        src_channel@,
                        dst_channel@,
                        src_port@,
                        dst_port@,
                    ),
                    count,
                ),
            ),
    {
        if count > 0 {
            let labels = make_channel_labels(
                src_chain,
                dst_chain,
                src_channel,
                dst_channel,
                src_port,
                dst_port,
            );
            counter_add(&mut self.timeout_packets_confirmed, count, &labels);
        }
    }

    /// Counts one query of the given kind emitted towards one chain.
    pub fn query(&mut self, chain_id: &str, query_type: &str)
        ensures
            (*final(self) == (TelemetryState { queries: final(self).queries, ..*old(self) })),
            counter_events(final(self).queries) == counter_events(old(self).queries).insert(
                (query_labels(chain_id@, query_type@), 1u64),
            ),
    {
        let labels = make_query_labels(chain_id, query_type);
        counter_add(&mut self.queries, 1, &labels);
    }

    /// Counts one cache hit for a query of the given kind on one chain.
    pub fn queries_cache_hits(&mut self, chain_id: &str, query_type: &str)
        ensures
            (*final(self) == (TelemetryState {
                queries_cache_hits: final(self).queries_cache_hits,
                ..*old(self)
            })),
            counter_events(final(self).queries_cache_hits) == counter_events(
                old(self).queries_cache_hits,
            ).insert((query_labels(chain_id@, query_type@), 1u64)),
    {
        let labels = make_query_labels(chain_id, query_type);
        counter_add(&mut self.queries_cache_hits, 1, &labels);
    }

    /// Counts one reconnection to the websocket endpoint of one chain.
    pub fn ws_reconnect(&mut self, chain_id: &str)
        ensures
            (*final(self) == (TelemetryState {
                ws_reconnect: final(self).ws_reconnect,
                ..*old(self)
            })),
            counter_events(final(self).ws_reconnect) == counter_events(
                old(self).ws_reconnect,
            ).insert((chain_labels(chain_id@), 1u64)),
    {
        let labels = make_chain_labels(chain_id);
        counter_add(&mut self.ws_reconnect, 1, &labels);
    }

    /// Counts `count` events received over one chain's websocket
    /// subscription.
    pub fn ws_events(&mut self, chain_id: &str, count: u64)
        ensures
            (*final(self) == (TelemetryState { ws_events: final(self).ws_events, ..*old(self) })),
            counter_events(final(self).ws_events) == counter_events(old(self).ws_events).insert(
                (chain_labels(chain_id@), count),
            ),
    {
        let labels = make_chain_labels(chain_id);
        counter_add(&mut self.ws_events, count, &labels);
    }

    /// Counts `count` messages submitted to one chain.
    pub fn messages_submitted(&mut self, chain_id: &str, count: u64)
        ensures
            (*final(self) == (TelemetryState {
                messages_submitted: final(self).messages_submitted,
                ..*old(self)
            })),
            counter_events(final(self).messages_submitted) == counter_events(
                old(self).messages_submitted,
            ).insert((chain_labels(chain_id@), count)),
    {
        let labels = make_chain_labels(chain_id);
        counter_add(&mut self.messages_submitted, count, &labels);
    }

    /// Counts one observed send-packet event on one path.
    pub fn send_packet_events(
        &mut self,
        _seq_nr: u64,
        _height: u64,
        chain_id: &str,
        channel_id: &str,
        port_id: &str,
        counterparty_chain_id: &str,
    )
        ensures
            (*final(self) == (TelemetryState {
                send_packet_events: final(self).send_packet_events,
                ..*old(self)
            })),
            counter_events(final(self).send_packet_events) == counter_events(
                old(self).send_packet_events,
            ).insert(
                (path_labels(chain_id@, counterparty_chain_id@, channel_id@, port_id@), 1u64),
            ),
    {
        let labels = make_path_labels(chain_id, counterparty_chain_id, channel_id, port_id);
        counter_add(&mut self.send_packet_events, 1, &labels);
    }

    /// Counts one observed write-acknowledgement event on one path.
    pub fn acknowledgement_events(
        &mut self,
        _seq_nr: u64,
        _height: u64,
        chain_id: &str,
        channel_id: &str,
        port_id: &str,
        counterparty_chain_id: &str,
    )
        ensures
            (*final(self) == (TelemetryState {
                acknowledgement_events: final(self).acknowledgement_events,
                ..*old(self)
            })),
            counter_events(final(self).acknowledgement_events) == counter_events(
                old(self).acknowledgement_events,
            ).insert(
                (path_labels(chain_id@, counterparty_chain_id@, channel_id@, port_id@), 1u64),
            ),
    {
        let labels = make_path_labels(chain_id, counterparty_chain_id, channel_id, port_id);
        counter_add(&mut self.acknowledgement_events, 1, &labels);
    }

    /// Counts one observed timeout event on one path.
    pub fn timeout_events(
        &mut self,
        chain_id: &str,
        channel_id: &str,
        port_id: &str,
        counterparty_chain_id: &str,
    )
        ensures
            (*final(self) == (TelemetryState {
                timeout_events: final(self).timeout_events,
                ..*old(self)
            })),
            counter_events(final(self).timeout_events) == counter_events(
                old(self).timeout_events,
            ).insert(
                (path_labels(chain_id@, counterparty_chain_id@, channel_id@, port_id@), 1u64),
            ),
    {
        let labels = make_path_labels(chain_id, counterparty_chain_id, channel_id, port_id);
        counter_add(&mut self.timeout_events, 1, &labels);
    }

    /// Counts one send-packet event received during packet clearing.
    pub fn cleared_send_packet_events(
        &mut self,
        _seq_nr: u64,
        _height: u64,
        chain_id: &str,
        channel_id: &str,
        port_id: &str,
        counterparty_chain_id: &str,
    )
        ensures
            (*final(self) == (TelemetryState {
                cleared_send_packet_events: final(self).cleared_send_packet_events,
                ..*old(self)
            })),
            counter_events(final(self).cleared_send_packet_events) == counter_events(
                old(self).cleared_send_packet_events,
            ).insert(
                (path_labels(chain_id@, counterparty_chain_id@, channel_id@, port_id@), 1u64),
            ),
    {
        let labels = make_path_labels(chain_id, counterparty_chain_id, channel_id, port_id);
        counter_add(&mut self.cleared_send_packet_events, 1, &labels);
    }

    /// Counts one write-acknowledgement event received during packet
    /// clearing.
    pub fn cleared_acknowledgment_events(
        &mut self,
        _seq_nr: u64,
        _height: u64,
        chain_id: &str,
        channel_id: &str,
        port_id: &str,
        counterparty_chain_id: &str,
    )
        ensures
            (*final(self) == (TelemetryState {
                cleared_acknowledgment_events: final(self).cleared_acknowledgment_events,
                ..*old(self)
            })),
            counter_events(final(self).cleared_acknowledgment_events) == counter_events(
                old(self).cleared_acknowledgment_events,
            ).insert(
                (path_labels(chain_id@, counterparty_chain_id@, channel_id@, port_id@), 1u64),
            ),
    {
        let labels = make_path_labels(chain_id, counterparty_chain_id, channel_id, port_id);
        counter_add(&mut self.cleared_acknowledgment_events, 1, &labels);
    }

    /// Counts one failure observed when broadcasting a transaction with the
    /// given account, under the failure's code and description.
    pub fn broadcast_errors(&mut self, address: &str, error_code: u32, error_description: &str)
        ensures
            (*final(self) == (TelemetryState {
                broadcast_errors: final(self).broadcast_errors,
                ..*old(self)
            })),
            counter_events(final(self).broadcast_errors) == counter_events(
                old(self).broadcast_errors,
            ).insert(
                (
                    broadcast_error_labels(
                        address@,
                        dec_digits(error_code as nat),
                        error_description@,
                    ),
                    1u64,
                ),
            ),
    {
        let broadcast_error = BroadcastError::new(error_code, error_description);
        let code_text = u64_to_dec(broadcast_error.code as u64);
        let labels = make_broadcast_error_labels(
            address,
            code_text.as_str(),
            broadcast_error.description.as_str(),
        );
        counter_add(&mut self.broadcast_errors, 1, &labels);
    }

    /// Counts one failure observed when simulating a transaction with the
    /// given account, under its recoverability and description.
    pub fn simulate_errors(&mut self, address: &str, recoverable: bool, error_description: &str)
        ensures
            (*final(self) == (TelemetryState {
                simulate_errors: final(self).simulate_errors,
                ..*old(self)
            })),
            counter_events(final(self).simulate_errors) == counter_events(
                old(self).simulate_errors,
            ).insert(
                (simulate_error_labels(address@, bool_label(recoverable), error_description@), 1u64),
            ),
    {
        let recoverable_text = bool_to_str(recoverable);
        let labels = make_simulate_error_labels(address, recoverable_text, error_description);
        counter_add(&mut self.simulate_errors, 1, &labels);
    }

    /// Counts `count` packets filtered for oversized memo or receiver fields
    /// on one channel; a zero count changes nothing.
    pub fn filtered_packets(
        &mut self,
        src_chain: &str,
        dst_chain: &str,
        src_channel: &str,
        dst_channel: &str,
        src_port: &str,
        dst_port: &str,
        count: u64,
    )
        ensures
            count == 0 ==> *final(self) == *old(self),
            count > 0 ==> (*final(self) == (TelemetryState {
                filtered_packets: final(self).filtered_packets,
                ..*old(self)
            })) && counter_events(final(self).filtered_packets) == counter_events(
                old(self).filtered_packets,
            ).insert(
                (
                    channel_labels(
                        src_chain@,
                        dst_chain@,
                        src_channel@,
                        dst_channel@,
                        src_port@,
                        dst_port@,
                    ),
                    count,
                ),
            ),
    {
        if count > 0 {
            let labels = make_channel_labels(
                src_chain,
                dst_chain,
                src_channel,
                dst_channel,
                src_port,
                dst_port,
            );
            counter_add(&mut self.filtered_packets, count, &labels);
        }
    }

    /// Counts `count` observed cross-chain queries between two chains; a zero
    /// count changes nothing.
    pub fn cross_chain_queries(&mut self, src_chain: &str, dst_chain: &str, count: usize)
        ensures
            count == 0 ==> *final(self) == *old(self),
            count > 0 ==> (*final(self) == (TelemetryState {
                cross_chain_queries: final(self).cross_chain_queries,
                ..*old(self)
            })) && counter_events(final(self).cross_chain_queries) == counter_events(
                old(self).cross_chain_queries,
            ).insert((src_dst_labels(src_chain@, dst_chain@), count as u64)),
    {
        if count > 0 {
            let labels = make_src_dst_labels(src_chain, dst_chain);
            counter_add(&mut self.cross_chain_queries, count as u64, &labels);
        }
    }

    /// Counts each cross-chain query response between two chains: one
    /// successful response per true entry, one error response per false
    /// entry.
    #[verifier::loop_isolation(false)]
    pub fn cross_chain_query_responses(
        &mut self,
        src_chain: &str,
        dst_chain: &str,
        responses_ok: Vec<bool>,
    )
        ensures
            (*final(self) == (TelemetryState {
                cross_chain_query_responses: final(self).cross_chain_query_responses,
                cross_chain_query_error_responses: final(self).cross_chain_query_error_responses,
                ..*old(self)
            })),
            counter_events(final(self).cross_chain_query_responses) == counter_events(
                old(self).cross_chain_query_responses,
            ).add(
                repeat_sample(
                    src_dst_labels(src_chain@, dst_chain@),
                    1u64,
                    count_true(responses_ok@),
                ),
            ),
            counter_events(final(self).cross_chain_query_error_responses) == counter_events(
                old(self).cross_chain_query_error_responses,
            ).add(
                repeat_sample(
                    src_dst_labels(src_chain@, dst_chain@),
                    1u64,
                    (responses_ok@.len() - count_true(responses_ok@)) as nat,
                ),
            ),
    {
        let labels = make_src_dst_labels(src_chain, dst_chain);
        proof {
            lemma_count_true_bound(responses_ok@);
        }
        let mut i: usize = 0;
        while i < responses_ok.len()
            invariant
                0 <= i <= responses_ok@.len(),
                (*self == (TelemetryState {
                    cross_chain_query_responses: self.cross_chain_query_responses,
                    cross_chain_query_error_responses: self.cross_chain_query_error_responses,
                    ..*old(self)
                })),
                counter_events(self.cross_chain_query_responses) == counter_events(
                    old(self).cross_chain_query_responses,
                ).add(
                    repeat_sample(
                        src_dst_labels(src_chain@, dst_chain@),
                        1u64,
                        count_true(responses_ok@.take(i as int)),
                    ),
                ),
                counter_events(self.cross_chain_query_error_responses) == counter_events(
                    old(self).cross_chain_query_error_responses,
                ).add(
                    repeat_sample(
                        src_dst_labels(src_chain@, dst_chain@),
                        1u64,
                        (responses_ok@.take(i as int).len() - count_true(
                            responses_ok@.take(i as int),
                        )) as nat,
                    ),
                ),
            decreases responses_ok@.len() - i,
        {
            proof {
                lemma_count_true_bound(responses_ok@.take(i as int));
                lemma_count_true_bound(responses_ok@.take(i + 1 as int));
                assert(responses_ok@.take(i + 1 as int).drop_last() =~= responses_ok@.take(
                    i as int,
                ));
            }
            if responses_ok[i] {
                counter_add(&mut self.cross_chain_query_responses, 1, &labels);
            } else {
                counter_add(&mut self.cross_chain_query_error_responses, 1, &labels);
            }
            proof {
                assert(counter_events(self.cross_chain_query_responses) =~= counter_events(
                    old(self).cross_chain_query_responses,
                ).add(
                    repeat_sample(
                        src_dst_labels(src_chain@, dst_chain@),
                        1u64,
                        count_true(responses_ok@.take(i + 1 as int)),
                    ),
                ));
                assert(counter_events(self.cross_chain_query_error_responses) =~= counter_events(
                    old(self).cross_chain_query_error_responses,
                ).add(
                    repeat_sample(
                        src_dst_labels(src_chain@, dst_chain@),
                        1u64,
                        (responses_ok@.take(i + 1 as int).len() - count_true(
                            responses_ok@.take(i + 1 as int),
                        )) as nat,
                    ),
                ));
            }
            i = i + 1;
        }
        proof {
            assert(responses_ok@.take(responses_ok@.len() as int) =~= responses_ok@);
        }
    }
}

} // verus!
