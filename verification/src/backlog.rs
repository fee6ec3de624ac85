//! Pure model of one path's backlog and the verified pieces of its
//! maintenance: the meaning of "oldest pending sequence", the insertion step
//! with threshold eviction, and the executable minimum over a key listing.
use vstd::prelude::*;

use vstd::seq_lib::seq_to_set_is_finite;

verus! {

/// Reserved sentinel meaning "no pending packets" for the oldest-sequence
/// signal; callers never use 0 as a real sequence number.
pub const EMPTY_BACKLOG_SYMBOL: u64 = 0;

/// Hard capacity of one path's backlog.
pub const BACKLOG_CAPACITY: usize = 1000;

/// Size past which an insertion first evicts the smallest pending sequence.
pub const BACKLOG_RESET_THRESHOLD: usize = 900;

/// `v` is the smallest element of `d`, or the sentinel 0 when `d` is empty.
pub open spec fn is_oldest(d: Set<u64>, v: u64) -> bool {
    if exists|k: u64| d.contains(k) {
        d.contains(v) && forall|k: u64| d.contains(k) ==> v <= k
    } else {
        v == 0
    }
}

/// The smallest element of `d`, or the sentinel 0 when `d` is empty.
pub open spec fn oldest_in(d: Set<u64>) -> u64 {
    choose|v: u64| is_oldest(d, v)
}

/// Two values that are both oldest-in-`d` are the same value.
pub proof fn lemma_oldest_unique(d: Set<u64>, a: u64, b: u64)
    requires
        is_oldest(d, a),
        is_oldest(d, b),
    ensures
        a == b,
{
}

/// A finite set has an oldest value, so `oldest_in` satisfies `is_oldest`.
pub proof fn lemma_oldest_exists(d: Set<u64>)
    requires
        d.finite(),
    ensures
        is_oldest(d, oldest_in(d)),
    decreases d.len(),
{
    broadcast use vstd::set_lib::group_set_properties;

    if exists|k: u64| d.contains(k) {
        let x = choose|k: u64| d.contains(k);
        let rest = d.remove(x);
        if exists|k: u64| rest.contains(k) {
            lemma_oldest_exists(rest);
            let m = oldest_in(rest);
            if m <= x {
                assert(is_oldest(d, m));
            } else {
                assert(is_oldest(d, x));
            }
        } else {
            assert(forall|k: u64| d.contains(k) ==> k == x);
            assert(is_oldest(d, x));
        }
        assert(exists|v: u64| is_oldest(d, v));
    } else {
        assert(is_oldest(d, 0));
    }
}

/// Pins `oldest_in(d)` to any value shown to be oldest in `d`.
pub proof fn lemma_oldest_pin(d: Set<u64>, v: u64)
    requires
        is_oldest(d, v),
    ensures
        oldest_in(d) == v,
{
    assert(exists|w: u64| is_oldest(d, w));
    lemma_oldest_unique(d, oldest_in(d), v);
}

/// How one insertion changes the set of pending sequence numbers: past the
/// reset threshold the smallest pending sequence is evicted first.
pub open spec fn insert_dom_step(d: Set<u64>, seq_nr: u64) -> Set<u64> {
    if d.len() > (BACKLOG_RESET_THRESHOLD as nat) {
        d.remove(oldest_in(d)).insert(seq_nr)
    } else {
        d.insert(seq_nr)
    }
}

/// How one insertion changes the backlog map: past the reset threshold the
/// entry with the smallest sequence is evicted, then the sequence is recorded
/// (or re-recorded) under the given timestamp.
pub open spec fn backlog_insert_step(m: Map<u64, u64>, seq_nr: u64, ts: u64) -> Map<u64, u64> {
    let base = if m.dom().len() > (BACKLOG_RESET_THRESHOLD as nat) {
        m.remove(oldest_in(m.dom()))
    } else {
        m
    };
    base.insert(seq_nr, ts)
}

/// The set of pending sequences after replacing a backlog with the listed
/// sequences, inserted left to right into an initially empty backlog.
pub open spec fn replace_dom_fold(s: Seq<u64>) -> Set<u64>
    decreases s.len(),
{
    if s.len() == 0 {
        Set::empty()
    } else {
        insert_dom_step(replace_dom_fold(s.drop_last()), s.last())
    }
}

/// The insertion step acts on the key set exactly as `insert_dom_step`.
pub proof fn lemma_insert_step_dom(m: Map<u64, u64>, seq_nr: u64, ts: u64)
    ensures
        backlog_insert_step(m, seq_nr, ts).dom() =~= insert_dom_step(m.dom(), seq_nr),
{
}

/// A key listing with the same members as a finite set fixes the set's size
/// and emptiness.
pub proof fn lemma_keys_characterize(s: Seq<u64>, d: Set<u64>)
    requires
        s.no_duplicates(),
        forall|k: u64| s.contains(k) <==> d.contains(k),
    ensures
        d.finite(),
        d.len() == s.len(),
        (s.len() == 0 <==> !exists|k: u64| d.contains(k)),
{
    assert(d =~= s.to_set());
    seq_to_set_is_finite::<u64>(s);
    s.unique_seq_to_set();
    if s.len() == 0 {
        assert(forall|k: u64| !d.contains(k));
    } else {
        assert(d.contains(s[0]));
    }
}

/// The smallest entry of a key listing, or nothing when it is empty.
pub(crate) fn min_of_keys(keys: &Vec<u64>) -> (r: Option<u64>)
    ensures
        r is None <==> keys@.len() == 0,
        r matches Some(v) ==> keys@.contains(v) && forall|k: u64| keys@.contains(k) ==> v <= k,
{
    if keys.len() == 0 {
        return None;
    }
    let mut min: u64 = keys[0];
    let mut i: usize = 1;
    while i < keys.len()
        invariant
            1 <= i <= keys@.len(),
            keys@.contains(min),
            forall|j: int| 0 <= j < i ==> min <= keys@[j],
        decreases keys@.len() - i,
    {
        if keys[i] < min {
            min = keys[i];
        }
        i = i + 1;
    }
    Some(min)
}

} // verus!
