//! The general laws of the tracker, stated over the same models its method
//! contracts use and proved once and for all.
use vstd::prelude::*;

use vstd::multiset::Multiset;

use crate::backlog::{
    backlog_insert_step, insert_dom_step, is_oldest, lemma_insert_step_dom, lemma_oldest_exists,
    oldest_in, replace_dom_fold, BACKLOG_CAPACITY, BACKLOG_RESET_THRESHOLD,
};
use crate::metrics::repeat_sample;
use crate::state::{bucket_value, window_sum};
use crate::store::cache_model;

verus! {

/// One operation on one path's backlog.
pub enum BacklogOp {
    Insert(u64),
    Remove(u64),
}

/// The set of pending sequences after a listing of operations, applied left to
/// right to an initially empty backlog, with threshold eviction on insertion.
pub open spec fn apply_ops(ops: Seq<BacklogOp>) -> Set<u64>
    decreases ops.len(),
{
    if ops.len() == 0 {
        Set::empty()
    } else {
        let d = apply_ops(ops.drop_last());
        match ops.last() {
            BacklogOp::Insert(s) => insert_dom_step(d, s),
            BacklogOp::Remove(s) => d.remove(s),
        }
    }
}

/// The sequences inserted and not since removed, with no eviction.
pub open spec fn pending(ops: Seq<BacklogOp>) -> Set<u64>
    decreases ops.len(),
{
    if ops.len() == 0 {
        Set::empty()
    } else {
        let d = pending(ops.drop_last());
        match ops.last() {
            BacklogOp::Insert(s) => d.insert(s),
            BacklogOp::Remove(s) => d.remove(s),
        }
    }
}

/// After any sequence of insert/remove operations too short to reach the
/// eviction threshold, the pending set is exactly the sequences inserted and
/// not since removed, its size is bounded by the number of operations, and —
/// provided 0 is never inserted, being the reserved sentinel — the oldest
/// value is 0 exactly when nothing is pending, and otherwise the smallest
/// pending sequence.
pub proof fn lemma_backlog_prefix(ops: Seq<BacklogOp>)
    requires
        ops.len() <= BACKLOG_RESET_THRESHOLD as nat,
        forall|i: int|
            0 <= i < ops.len() ==> (#[trigger] ops[i] matches BacklogOp::Insert(s) ==> s != 0),
    ensures
        apply_ops(ops).finite(),
        apply_ops(ops).len() <= ops.len(),
        apply_ops(ops) == pending(ops),
        !apply_ops(ops).contains(0),
        is_oldest(apply_ops(ops), oldest_in(apply_ops(ops))),
        oldest_in(apply_ops(ops)) == 0 <==> apply_ops(ops) =~= Set::<u64>::empty(),
    decreases ops.len(),
{
    broadcast use vstd::set_lib::group_set_properties;

    if ops.len() == 0 {
        assert(apply_ops(ops) =~= Set::<u64>::empty());
        lemma_oldest_exists(apply_ops(ops));
    } else {
        let rest = ops.drop_last();
        assert(forall|i: int|
            0 <= i < rest.len() ==> (#[trigger] rest[i] matches BacklogOp::Insert(s) ==> s != 0))
            by {
            assert(forall|i: int| 0 <= i < rest.len() ==> rest[i] == ops[i]);
        }
        lemma_backlog_prefix(rest);
        let d = apply_ops(rest);
        match ops.last() {
            BacklogOp::Insert(s) => {
                assert(ops[ops.len() - 1] == ops.last());
                assert(s != 0);
                assert(d.len() <= BACKLOG_RESET_THRESHOLD as nat);
                assert(apply_ops(ops) =~= d.insert(s));
            },
            BacklogOp::Remove(s) => {
                assert(apply_ops(ops) =~= d.remove(s));
            },
        }
        lemma_oldest_exists(apply_ops(ops));
        if apply_ops(ops).contains(oldest_in(apply_ops(ops))) {
            assert(oldest_in(apply_ops(ops)) != 0);
        }
    }
}

/// However many operations run, the pending set never grows past the eviction
/// bound, which lies under the hard capacity: insertion past the reset
/// threshold always evicts first.
pub proof fn lemma_backlog_capacity(ops: Seq<BacklogOp>)
    ensures
        apply_ops(ops).finite(),
        apply_ops(ops).len() <= (BACKLOG_RESET_THRESHOLD + 1) as nat,
        apply_ops(ops).len() <= BACKLOG_CAPACITY as nat,
    decreases ops.len(),
{
    broadcast use vstd::set_lib::group_set_properties;

    if ops.len() > 0 {
        let rest = ops.drop_last();
        lemma_backlog_capacity(rest);
        let d = apply_ops(rest);
        match ops.last() {
            BacklogOp::Insert(s) => {
                if d.len() > BACKLOG_RESET_THRESHOLD as nat {
                    lemma_oldest_exists(d);
                    assert(d.contains(oldest_in(d)));
                    assert(d.remove(oldest_in(d)).len() == d.len() - 1);
                    assert(apply_ops(ops) == d.remove(oldest_in(d)).insert(s));
                } else {
                    assert(apply_ops(ops) == d.insert(s));
                }
            },
            BacklogOp::Remove(s) => {
                assert(apply_ops(ops) == d.remove(s));
            },
        }
    }
}

/// One insertion step keeps a backlog within the eviction bound, which lies
/// under the hard capacity — the state-level form of the capacity law, usable
/// directly with the insertion contracts, whatever the timestamps.
pub proof fn lemma_insert_step_capacity(m: Map<u64, u64>, seq_nr: u64, ts: u64)
    requires
        m.dom().finite(),
        m.dom().len() <= (BACKLOG_RESET_THRESHOLD + 1) as nat,
    ensures
        backlog_insert_step(m, seq_nr, ts).dom().finite(),
        backlog_insert_step(m, seq_nr, ts).dom().len() <= (BACKLOG_RESET_THRESHOLD + 1) as nat,
        backlog_insert_step(m, seq_nr, ts).dom().len() <= BACKLOG_CAPACITY as nat,
{
    broadcast use vstd::set_lib::group_set_properties;

    lemma_insert_step_dom(m, seq_nr, ts);
    if m.dom().len() > BACKLOG_RESET_THRESHOLD as nat {
        lemma_oldest_exists(m.dom());
        assert(m.dom().contains(oldest_in(m.dom())));
        assert(m.dom().remove(oldest_in(m.dom())).len() == m.dom().len() - 1);
    }
}

/// One removal step never grows a backlog, so it too keeps the bound.
pub proof fn lemma_remove_step_capacity(m: Map<u64, u64>, seq_nr: u64)
    requires
        m.dom().finite(),
        m.dom().len() <= (BACKLOG_RESET_THRESHOLD + 1) as nat,
    ensures
        m.remove(seq_nr).dom().finite(),
        m.remove(seq_nr).dom().len() <= (BACKLOG_RESET_THRESHOLD + 1) as nat,
        m.remove(seq_nr).dom().len() <= BACKLOG_CAPACITY as nat,
{
    broadcast use vstd::set_lib::group_set_properties;

    assert(m.remove(seq_nr).dom() =~= m.dom().remove(seq_nr));
    if m.dom().contains(seq_nr) {
        assert(m.dom().remove(seq_nr).len() == m.dom().len() - 1);
    } else {
        assert(m.dom().remove(seq_nr) =~= m.dom());
    }
}

/// What threshold eviction does: past the reset threshold, the inserted-into
/// set first loses exactly its smallest element.
pub proof fn lemma_eviction_takes_smallest(d: Set<u64>, seq_nr: u64)
    requires
        d.finite(),
        d.len() > BACKLOG_RESET_THRESHOLD as nat,
    ensures
        is_oldest(d, oldest_in(d)),
        insert_dom_step(d, seq_nr) == d.remove(oldest_in(d)).insert(seq_nr),
{
    lemma_oldest_exists(d);
}

/// Replacing a backlog with a listing short enough to escape eviction tracks
/// exactly the listed sequences, and the resulting oldest value is the
/// smallest of the listing.
pub proof fn lemma_replace_exact(s: Seq<u64>)
    requires
        s.len() <= BACKLOG_RESET_THRESHOLD as nat,
    ensures
        replace_dom_fold(s).finite(),
        replace_dom_fold(s) == s.to_set(),
        replace_dom_fold(s).len() <= s.len(),
        is_oldest(replace_dom_fold(s), oldest_in(replace_dom_fold(s))),
    decreases s.len(),
{
    broadcast use vstd::set_lib::group_set_properties;

    if s.len() == 0 {
        assert(replace_dom_fold(s) =~= s.to_set());
        lemma_oldest_exists(replace_dom_fold(s));
    } else {
        let rest = s.drop_last();
        lemma_replace_exact(rest);
        assert(replace_dom_fold(s) == replace_dom_fold(rest).insert(s.last()));
        rest.lemma_push_to_set_commute(s.last());
        assert(rest.push(s.last()) =~= s);
        assert(replace_dom_fold(s) =~= s.to_set());
        lemma_oldest_exists(replace_dom_fold(s));
    }
}

/// Recording a fresh fee record holding `amount` under `key` raises the
/// windowed sum for `key` by exactly `amount`, whatever the other records
/// hold or have expired to.
pub proof fn lemma_fee_window_increase(
    caches: Seq<moka::sync::Cache<String, u64>>,
    record: moka::sync::Cache<String, u64>,
    key: Seq<char>,
    amount: u64,
)
    requires
        cache_model(record) == Map::<Seq<char>, u64>::empty().insert(key, amount),
    ensures
        window_sum(caches.push(record), key) == window_sum(caches, key) + amount,
{
    assert(caches.push(record).drop_last() =~= caches);
    assert(caches.push(record).last() == record);
    assert(bucket_value(record, key) == amount as int);
}

/// A windowed sum never counts a record under a key it does not hold: a
/// record for a different key contributes nothing.
pub proof fn lemma_fee_window_other_key(
    caches: Seq<moka::sync::Cache<String, u64>>,
    record: moka::sync::Cache<String, u64>,
    key: Seq<char>,
    other: Seq<char>,
    amount: u64,
)
    requires
        cache_model(record) == Map::<Seq<char>, u64>::empty().insert(other, amount),
        key != other,
    ensures
        window_sum(caches.push(record), key) == window_sum(caches, key),
{
    assert(caches.push(record).drop_last() =~= caches);
    assert(caches.push(record).last() == record);
    assert(bucket_value(record, key) == 0int);
}

/// A batch correlated `n` ways records its latency exactly `n` times: the
/// repeated sample holds the measurement with multiplicity `n` and nothing
/// else.
pub proof fn lemma_repeat_sample_count(
    labels: Seq<(Seq<char>, Seq<char>)>,
    value: u64,
    n: nat,
)
    ensures
        repeat_sample(labels, value, n).count((labels, value)) == n,
        repeat_sample(labels, value, n).len() == n,
        forall|e: (Seq<(Seq<char>, Seq<char>)>, u64)|
            e != (labels, value) ==> repeat_sample(labels, value, n).count(e) == 0,
    decreases n,
{
    if n > 0 {
        lemma_repeat_sample_count(labels, value, (n - 1) as nat);
    }
}

} // verus!
