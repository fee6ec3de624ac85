//! Label lists attached to every emitted metric observation. A label list is
//! held as a vector of (name, value) string pairs; its view is the sequence of
//! the pairs' character sequences, which the instrument models are keyed by.
use vstd::prelude::*;

verus! {

/// The view of a label list: each (name, value) pair as character sequences.
pub open spec fn labels_view(s: Seq<(String, String)>) -> Seq<(Seq<char>, Seq<char>)> {
    s.map_values(|p: (String, String)| (p.0@, p.1@))
}

/// The label list of per-chain signals.
pub open spec fn chain_labels(chain: Seq<char>) -> Seq<(Seq<char>, Seq<char>)> {
    seq![("chain"@, chain)]
}

/// The label list of per-path signals: source chain, its counterparty, and the
/// channel and port of the path.
pub open spec fn path_labels(
    chain: Seq<char>,
    counterparty: Seq<char>,
    channel: Seq<char>,
    port: Seq<char>,
) -> Seq<(Seq<char>, Seq<char>)> {
    seq![
        ("chain"@, chain),
        ("counterparty"@, counterparty),
        ("channel"@, channel),
        ("port"@, port),
    ]
}

/// The label list of per-channel signals.
pub open spec fn channel_labels(
    src_chain: Seq<char>,
    dst_chain: Seq<char>,
    src_channel: Seq<char>,
    dst_channel: Seq<char>,
    src_port: Seq<char>,
    dst_port: Seq<char>,
) -> Seq<(Seq<char>, Seq<char>)> {
    seq![
        ("src_chain"@, src_chain),
        ("dst_chain"@, dst_chain),
        ("src_channel"@, src_channel),
        ("dst_channel"@, dst_channel),
        ("src_port"@, src_port),
        ("dst_port"@, dst_port),
    ]
}

/// The label list of per-client signals.
pub open spec fn client_labels(src_chain: Seq<char>, dst_chain: Seq<char>, client: Seq<char>) -> Seq<
    (Seq<char>, Seq<char>),
> {
    seq![("src_chain"@, src_chain), ("dst_chain"@, dst_chain), ("client"@, client)]
}

/// The label list of per-query signals.
pub open spec fn query_labels(chain: Seq<char>, query_type: Seq<char>) -> Seq<
    (Seq<char>, Seq<char>),
> {
    seq![("chain"@, chain), ("query_type"@, query_type)]
}

/// The label list of worker-count signals.
pub open spec fn worker_labels(worker_type: Seq<char>) -> Seq<(Seq<char>, Seq<char>)> {
    seq![("type"@, worker_type)]
}

/// The label list of fee-reward signals.
pub open spec fn fee_labels(chain: Seq<char>, receiver: Seq<char>, denom: Seq<char>) -> Seq<
    (Seq<char>, Seq<char>),
> {
    seq![("chain"@, chain), ("receiver"@, receiver), ("denom"@, denom)]
}

/// The label list of broadcast-failure signals.
pub open spec fn broadcast_error_labels(
    account: Seq<char>,
    error_code: Seq<char>,
    error_description: Seq<char>,
) -> Seq<(Seq<char>, Seq<char>)> {
    seq![
        ("account"@, account),
        ("error_code"@, error_code),
        ("error_description"@, error_description),
    ]
}

/// The label list of simulation-failure signals.
pub open spec fn simulate_error_labels(
    account: Seq<char>,
    recoverable: Seq<char>,
    error_description: Seq<char>,
) -> Seq<(Seq<char>, Seq<char>)> {
    seq![
        ("account"@, account),
        ("recoverable"@, recoverable),
        ("error_description"@, error_description),
    ]
}

/// The label list of cross-chain-query signals.
pub open spec fn src_dst_labels(src_chain: Seq<char>, dst_chain: Seq<char>) -> Seq<
    (Seq<char>, Seq<char>),
> {
    seq![("src_chain"@, src_chain), ("dst_chain"@, dst_chain)]
}

/// One (name, value) label pair.
pub(crate) fn label(name: &str, value: &str) -> (r: (String, String))
    ensures
        r.0@ == name@,
        r.1@ == value@,
{
    (name.to_owned(), value.to_owned())
}

/// Builds the per-chain label list.
pub(crate) fn make_chain_labels(chain: &str) -> (r: Vec<(String, String)>)
    ensures
        labels_view(r@) == chain_labels(chain@),
{
    let r = vec![label("chain", chain)];
    proof {
        assert(labels_view(r@) =~= chain_labels(chain@));
    }
    r
}

/// Builds the per-path label list.
pub(crate) fn make_path_labels(
    chain: &str,
    counterparty: &str,
    channel: &str,
    port: &str,
) -> (r: Vec<(String, String)>)
    ensures
        labels_view(r@) == path_labels(chain@, counterparty@, channel@, port@),
{
    let r = vec![
        label("chain", chain),
        label("counterparty", counterparty),
        label("channel", channel),
        label("port", port),
    ];
    proof {
        assert(labels_view(r@) =~= path_labels(chain@, counterparty@, channel@, port@));
    }
    r
}

/// Builds the per-channel label list.
pub(crate) fn make_channel_labels(
    src_chain: &str,
    dst_chain: &str,
    src_channel: &str,
    dst_channel: &str,
    src_port: &str,
    dst_port: &str,
) -> (r: Vec<(String, String)>)
    ensures
        labels_view(r@) == channel_labels(
            src_chain@,
            dst_chain@,
            src_channel@,
            dst_channel@,
            src_port@,
            dst_port@,
        ),
{
    let r = vec![
        label("src_chain", src_chain),
        label("dst_chain", dst_chain),
        label("src_channel", src_channel),
        label("dst_channel", dst_channel),
        label("src_port", src_port),
        label("dst_port", dst_port),
    ];
    proof {
        assert(labels_view(r@) =~= channel_labels(
            src_chain@,
            dst_chain@,
            src_channel@,
            dst_channel@,
            src_port@,
            dst_port@,
        ));
    }
    r
}

/// Builds the per-client label list.
pub(crate) fn make_client_labels(src_chain: &str, dst_chain: &str, client: &str) -> (r: Vec<
    (String, String),
>)
    ensures
        labels_view(r@) == client_labels(src_chain@, dst_chain@, client@),
{
    let r = vec![
        label("src_chain", src_chain),
        label("dst_chain", dst_chain),
        label("client", client),
    ];
    proof {
        assert(labels_view(r@) =~= client_labels(src_chain@, dst_chain@, client@));
    }
    r
}

/// Builds the per-query label list.
pub(crate) fn make_query_labels(chain: &str, query_type: &str) -> (r: Vec<(String, String)>)
    ensures
        labels_view(r@) == query_labels(chain@, query_type@),
{
    let r = vec![label("chain", chain), label("query_type", query_type)];
    proof {
        assert(labels_view(r@) =~= query_labels(chain@, query_type@));
    }
    r
}

/// Builds the worker-count label list.
pub(crate) fn make_worker_labels(worker_type: &str) -> (r: Vec<(String, String)>)
    ensures
        labels_view(r@) == worker_labels(worker_type@),
{
    let r = vec![label("type", worker_type)];
    proof {
        assert(labels_view(r@) =~= worker_labels(worker_type@));
    }
    r
}

/// Builds the fee-reward label list.
pub(crate) fn make_fee_labels(chain: &str, receiver: &str, denom: &str) -> (r: Vec<
    (String, String),
>)
    ensures
        labels_view(r@) == fee_labels(chain@, receiver@, denom@),
{
    let r = vec![label("chain", chain), label("receiver", receiver), label("denom", denom)];
    proof {
        assert(labels_view(r@) =~= fee_labels(chain@, receiver@, denom@));
    }
    r
}

/// Builds the broadcast-failure label list.
pub(crate) fn make_broadcast_error_labels(
    account: &str,
    error_code: &str,
    error_description: &str,
) -> (r: Vec<(String, String)>)
    ensures
        labels_view(r@) == broadcast_error_labels(account@, error_code@, error_description@),
{
    let r = vec![
        label("account", account),
        label("error_code", error_code),
        label("error_description", error_description),
    ];
    proof {
        assert(labels_view(r@) =~= broadcast_error_labels(
            account@,
            error_code@,
            error_description@,
        ));
    }
    r
}

/// Builds the simulation-failure label list.
pub(crate) fn make_simulate_error_labels(
    account: &str,
    recoverable: &str,
    error_description: &str,
) -> (r: Vec<(String, String)>)
    ensures
        labels_view(r@) == simulate_error_labels(account@, recoverable@, error_description@),
{
    let r = vec![
        label("account", account),
        label("recoverable", recoverable),
        label("error_description", error_description),
    ];
    proof {
        assert(labels_view(r@) =~= simulate_error_labels(
            account@,
            recoverable@,
            error_description@,
        ));
    }
    r
}

/// Builds the cross-chain-query label list.
pub(crate) fn make_src_dst_labels(src_chain: &str, dst_chain: &str) -> (r: Vec<(String, String)>)
    ensures
        labels_view(r@) == src_dst_labels(src_chain@, dst_chain@),
{
    let r = vec![label("src_chain", src_chain), label("dst_chain", dst_chain)];
    proof {
        assert(labels_view(r@) =~= src_dst_labels(src_chain@, dst_chain@));
    }
    r
}

} // verus!
