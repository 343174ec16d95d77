//! The figures that a report shows of one volley, in milliseconds.

use crate::aggregate::{count_filled, lemma_count_filled_bound, PingResult, VolleyInfo};
use vstd::prelude::*;
use vstd::relations::{sorted_by, total_ordering};
use vstd::seq_lib::lemma_sorted_unique;

verus! {

/// Nanoseconds in a millisecond.
pub const NANOS_PER_MILLI: u64 = 1_000_000;

/// The figures of one volley. Latencies are whole milliseconds, rounded
/// down.
#[derive(Debug)]
pub struct VolleySummary {
    /// Number of probes the transport took.
    pub sent: usize,
    /// Number of probes answered.
    pub received: usize,
    /// Number of probes not answered.
    pub lost: usize,
    /// Mean latency of the answered probes.
    pub avg: u64,
    /// Least latency.
    pub min: u64,
    /// Greatest latency.
    pub max: u64,
    /// The latency at the middle of the latencies in ascending order.
    pub percentile50: u64,
    /// The latency that 99 in 100 of the latencies in ascending order stay
    /// below or reach.
    pub percentile99: u64,
    /// The probes not answered, in send order.
    pub missing: Vec<usize>,
}

/// The order of latencies.
pub open spec fn at_most() -> spec_fn(u64, u64) -> bool {
    |a: u64, b: u64| a <= b
}

/// Whether no value stands before a smaller one.
pub open spec fn ascending(values: Seq<u64>) -> bool {
    forall|i: int, j: int| 0 <= i < j < values.len() ==> values[i] <= values[j]
}

/// The values in ascending order.
pub open spec fn ranked(values: Seq<u64>) -> Seq<u64> {
    values.sort_by(at_most())
}

/// The latencies of the filled slots in milliseconds, in slot order.
pub open spec fn latencies_millis(slots: Seq<Option<PingResult>>) -> Seq<u64>
    decreases slots.len(),
{
    if slots.len() == 0 {
        Seq::empty()
    } else {
        match slots.last() {
            Some(result) => latencies_millis(slots.drop_last()).push(result.latency / NANOS_PER_MILLI),
            None => latencies_millis(slots.drop_last()),
        }
    }
}

/// The sum of the latencies of the filled slots, in nanoseconds.
pub open spec fn latency_total(slots: Seq<Option<PingResult>>) -> nat
    decreases slots.len(),
{
    if slots.len() == 0 {
        0
    } else {
        match slots.last() {
            Some(result) => latency_total(slots.drop_last()) + result.latency as nat,
            None => latency_total(slots.drop_last()),
        }
    }
}

/// The numbers of the empty slots, in ascending order.
pub open spec fn missing_slots(slots: Seq<Option<PingResult>>) -> Seq<usize>
    decreases slots.len(),
{
    if slots.len() == 0 {
        Seq::empty()
    } else {
        match slots.last() {
            Some(_) => missing_slots(slots.drop_last()),
            None => missing_slots(slots.drop_last()).push((slots.len() - 1) as usize),
        }
    }
}

/// The place, among `len` values in ascending order, of the value that
/// `percent` in 100 of them stay below.
pub open spec fn percentile_rank(len: nat, percent: nat) -> nat {
    len * percent / 100
}

/// Calls `sort` of a slice of `u64`, which the standard library documents to
/// put the elements in ascending order: the same elements, each as often as
/// before, none before a smaller one.
///
/// Trusted: the body is not verified against the contract.
#[verifier::external_body]
fn sort_ascending(values: &mut Vec<u64>)
    ensures
        ascending(final(values)@),
        final(values)@.to_multiset() == old(values)@.to_multiset(),
{
    values.sort();
}

proof fn lemma_sorted_is_ranked(sorted: Seq<u64>, values: Seq<u64>)
    requires
        ascending(sorted),
        sorted.to_multiset() == values.to_multiset(),
    ensures
        sorted == ranked(values),
        sorted.len() == values.len(),
{
    assert(total_ordering(at_most()));
    values.lemma_sort_by_ensures(at_most());
    assert(sorted_by(sorted, at_most()));
    lemma_sorted_unique(sorted, ranked(values), at_most());
    sorted.to_multiset_ensures();
    values.to_multiset_ensures();
}

proof fn lemma_latencies_count(slots: Seq<Option<PingResult>>)
    ensures
        latencies_millis(slots).len() == count_filled(slots),
        latency_total(slots) <= count_filled(slots) * u64::MAX,
    decreases slots.len(),
{
    if slots.len() > 0 {
        lemma_latencies_count(slots.drop_last());
        assert((count_filled(slots.drop_last()) + 1) * u64::MAX == count_filled(slots.drop_last())
            * u64::MAX + u64::MAX) by (nonlinear_arith);
    }
}

/// The figures of a volley whose replies had `timeout` nanoseconds to come.
///
/// The counts are those of the volley. `missing` lists the empty slots. Of
/// the latencies of the filled slots, each rounded down to milliseconds and
/// put in ascending order, `min` is the first, `max` the last, `percentile50`
/// the one at place `len / 2` and `percentile99` the one at place
/// `len * 99 / 100`; `avg` is the mean of the latencies, rounded down first to
/// nanoseconds and then to milliseconds. Of a volley without a reply every
/// latency figure is the timeout in milliseconds.
pub fn summarize(info: &VolleyInfo, timeout: u64) -> (summary: VolleySummary)
    requires
        info.well_formed(),
    ensures
        summary.sent == info.sent,
        summary.received == info.received,
        summary.lost == info.results@.len() - info.received,
        summary.missing@ == missing_slots(info.results@),
        ({
            let latencies = ranked(latencies_millis(info.results@));
            let len = latencies.len();
            if info.received > 0 {
                &&& len == info.received
                &&& summary.avg == latency_total(info.results@) / len / (NANOS_PER_MILLI as nat)
                &&& summary.min == latencies[0]
                &&& summary.max == latencies[len - 1]
                &&& summary.percentile50 == latencies[percentile_rank(len, 50) as int]
                &&& summary.percentile99 == latencies[percentile_rank(len, 99) as int]
            } else {
                &&& summary.avg == timeout / NANOS_PER_MILLI
                &&& summary.min == timeout / NANOS_PER_MILLI
                &&& summary.max == timeout / NANOS_PER_MILLI
                &&& summary.percentile50 == timeout / NANOS_PER_MILLI
                &&& summary.percentile99 == timeout / NANOS_PER_MILLI
            }
        }),
{
    let count = info.results.len();
    let mut latencies: Vec<u64> = Vec::new();
    let mut missing: Vec<usize> = Vec::new();
    let mut total: u128 = 0;
    let mut slot: usize = 0;
    while slot < count
        invariant
            count == info.results@.len(),
            slot <= count,
            latencies@ == latencies_millis(info.results@.take(slot as int)),
            missing@ == missing_slots(info.results@.take(slot as int)),
            total == latency_total(info.results@.take(slot as int)),
            latencies@.len() <= slot,
        decreases count - slot,
    {
        proof {
            assert(info.results@.take(slot + 1).drop_last() =~= info.results@.take(slot as int));
            lemma_latencies_count(info.results@.take(slot as int));
            lemma_count_filled_bound(info.results@.take(slot as int));
            assert(count_filled(info.results@.take(slot as int)) * u64::MAX <= slot * u64::MAX)
                by (nonlinear_arith)
                requires
                    count_filled(info.results@.take(slot as int)) <= slot,
            ;
            assert(slot * u64::MAX + u64::MAX <= u128::MAX) by (nonlinear_arith)
                requires
                    slot <= usize::MAX,
                    usize::MAX <= u64::MAX,
            ;
        }
        match info.results[slot] {
            Some(result) => {
                latencies.push(result.latency / NANOS_PER_MILLI);
                total = total + result.latency as u128;
            },
            None => {
                missing.push(slot);
            },
        }
        slot += 1;
    }
    let ghost values = latencies@;
    proof {
        assert(info.results@.take(count as int) =~= info.results@);
        lemma_latencies_count(info.results@);
    }
    sort_ascending(&mut latencies);
    proof {
        lemma_sorted_is_ranked(latencies@, values);
    }
    let timeout_millis = timeout / NANOS_PER_MILLI;
    let len = latencies.len();
    if len > 0 {
        let mean = total / (len as u128);
        proof {
            assert(mean <= u64::MAX) by (nonlinear_arith)
                requires
                    mean == total / (len as u128),
                    total <= len * u64::MAX,
                    len > 0,
            ;
            assert(len * 50 / 100 < len && len * 99 / 100 < len) by (nonlinear_arith)
                requires
                    len > 0,
            ;
        }
        let middle = ((len as u128 * 50) / 100) as usize;
        let upper = ((len as u128 * 99) / 100) as usize;
        VolleySummary {
            sent: info.sent,
            received: info.received,
            lost: count - info.received,
            avg: (mean / (NANOS_PER_MILLI as u128)) as u64,
            min: latencies[0],
            max: latencies[len - 1],
            percentile50: latencies[middle],
            percentile99: latencies[upper],
            missing,
        }
    } else {
        VolleySummary {
            sent: info.sent,
            received: info.received,
            lost: count - info.received,
            avg: timeout_millis,
            min: timeout_millis,
            max: timeout_millis,
            percentile50: timeout_millis,
            percentile99: timeout_millis,
            missing,
        }
    }
}

} // verus!
