//! Correlation of the reply log with the send log.

use vstd::prelude::*;

verus! {

/// One probe as the sender logged it.
#[derive(Debug, Clone, Copy, PartialEq, Eq, Structural)]
pub struct OutboundRequest {
    /// Sequence number carried on the wire.
    pub sequence: u16,
    /// Clock reading taken immediately before the probe was handed to the
    /// transport, in nanoseconds.
    pub send_timestamp: u64,
    /// Whether the transport took the probe.
    pub delivered: bool,
}

/// One reply that passed every check of the receiver.
#[derive(Debug, Clone, Copy, PartialEq, Eq, Structural)]
pub struct InboundReply {
    /// Sequence number the reply carries.
    pub sequence: u16,
    /// Clock reading taken when the reply was accepted, in nanoseconds.
    pub arrival_timestamp: u64,
    /// Number of payload bytes behind the echo header.
    pub payload_size: usize,
}

/// The measurement of one answered probe.
#[derive(Debug, Clone, Copy, PartialEq, Eq, Structural)]
pub struct PingResult {
    /// Time from send to arrival, in nanoseconds.
    pub latency: u64,
    /// Number of payload bytes the reply carried.
    pub reply_size: usize,
}

/// Time from `sent` to `arrived`; zero when the arrival reads earlier than the
/// send.
pub open spec fn latency_between(sent: u64, arrived: u64) -> u64 {
    if arrived >= sent {
        (arrived - sent) as u64
    } else {
        0
    }
}

/// Computes [`latency_between`].
pub fn latency(sent: u64, arrived: u64) -> (elapsed: u64)
    ensures
        elapsed == latency_between(sent, arrived),
{
    if arrived >= sent {
        arrived - sent
    } else {
        0
    }
}


/// The outcome of one volley: a slot per probe, in send order, and the counts.
#[derive(Debug)]
pub struct VolleyInfo {
    /// Slot `i` holds the measurement of probe `i`, or nothing when the probe
    /// is lost.
    pub results: Vec<Option<PingResult>>,
    /// Number of probes the transport took.
    pub sent: usize,
    /// Number of filled slots.
    pub received: usize,
    /// Number of empty slots.
    pub lost: usize,
}

/// Whether a reply refers to a logged probe and came back within `timeout` of
/// that probe's send.
pub open spec fn admissible(requests: Seq<OutboundRequest>, timeout: u64, reply: InboundReply) -> bool {
    &&& reply.sequence < requests.len()
    &&& latency_between(requests[reply.sequence as int].send_timestamp, reply.arrival_timestamp)
        <= timeout
}

/// The test a reply passes when it may fill `slot`: it is admissible and
/// carries the slot's number.
pub open spec fn claims_slot(requests: Seq<OutboundRequest>, timeout: u64, slot: int) -> spec_fn(
    InboundReply,
) -> bool {
    |reply: InboundReply| reply.sequence == slot && admissible(requests, timeout, reply)
}

/// The replies that may fill `slot`, in the order of the log.
pub open spec fn claimants(
    requests: Seq<OutboundRequest>,
    replies: Seq<InboundReply>,
    timeout: u64,
    slot: int,
) -> Seq<InboundReply> {
    replies.filter(claims_slot(requests, timeout, slot))
}

/// What an admissible reply measures.
pub open spec fn measurement(requests: Seq<OutboundRequest>, reply: InboundReply) -> PingResult {
    PingResult {
        latency: latency_between(
            requests[reply.sequence as int].send_timestamp,
            reply.arrival_timestamp,
        ),
        reply_size: reply.payload_size,
    }
}

/// The content of `slot`: the measurement of the first reply in the log that
/// may fill it, or nothing when no reply may.
pub open spec fn slot_value(
    requests: Seq<OutboundRequest>,
    replies: Seq<InboundReply>,
    timeout: u64,
    slot: int,
) -> Option<PingResult> {
    let found = claimants(requests, replies, timeout, slot);
    if found.len() > 0 {
        Some(measurement(requests, found[0]))
    } else {
        None
    }
}

/// The slots of a volley, one per logged probe.
pub open spec fn volley_slots(
    requests: Seq<OutboundRequest>,
    replies: Seq<InboundReply>,
    timeout: u64,
) -> Seq<Option<PingResult>> {
    Seq::new(requests.len(), |slot: int| slot_value(requests, replies, timeout, slot))
}

/// Number of filled slots.
pub open spec fn count_filled(slots: Seq<Option<PingResult>>) -> nat
    decreases slots.len(),
{
    if slots.len() == 0 {
        0
    } else {
        count_filled(slots.drop_last()) + if slots.last() is Some {
            1nat
        } else {
            0nat
        }
    }
}

/// Number of probes the transport took.
pub open spec fn count_delivered(requests: Seq<OutboundRequest>) -> nat
    decreases requests.len(),
{
    if requests.len() == 0 {
        0
    } else {
        count_delivered(requests.drop_last()) + if requests.last().delivered {
            1nat
        } else {
            0nat
        }
    }
}

impl VolleyInfo {
    /// The counts agree with the slots: `received` counts the filled ones,
    /// `lost` the empty ones, and no more probes were sent than there are
    /// slots.
    pub open spec fn well_formed(&self) -> bool {
        &&& self.received == count_filled(self.results@)
        &&& self.lost == self.results@.len() - self.received
        &&& self.sent <= self.results@.len()
    }
}

/// Appending a reply to the log appends it to the claimants of the slot it
/// claims and leaves every other slot's claimants alone.
pub proof fn lemma_claimants_push(
    requests: Seq<OutboundRequest>,
    replies: Seq<InboundReply>,
    timeout: u64,
    slot: int,
    reply: InboundReply,
)
    ensures
        claimants(requests, replies.push(reply), timeout, slot) == if claims_slot(
            requests,
            timeout,
            slot,
        )(reply) {
            claimants(requests, replies, timeout, slot).push(reply)
        } else {
            claimants(requests, replies, timeout, slot)
        },
{
    reveal(Seq::filter);
    assert(replies.push(reply).drop_last() =~= replies);
}

/// No more slots are filled than there are slots.
pub proof fn lemma_count_filled_bound(slots: Seq<Option<PingResult>>)
    ensures
        count_filled(slots) <= slots.len(),
    decreases slots.len(),
{
    if slots.len() > 0 {
        lemma_count_filled_bound(slots.drop_last());
    }
}

/// No more probes were delivered than were logged.
pub proof fn lemma_count_delivered_bound(requests: Seq<OutboundRequest>)
    ensures
        count_delivered(requests) <= requests.len(),
    decreases requests.len(),
{
    if requests.len() > 0 {
        lemma_count_delivered_bound(requests.drop_last());
    }
}

/// Filling an empty slot raises the number of filled slots by one.
pub proof fn lemma_count_filled_fill(slots: Seq<Option<PingResult>>, slot: int, value: PingResult)
    requires
        0 <= slot < slots.len(),
        slots[slot] is None,
    ensures
        count_filled(slots.update(slot, Some(value))) == count_filled(slots) + 1,
    decreases slots.len(),
{
    let filled = slots.update(slot, Some(value));
    if slot == slots.len() - 1 {
        assert(filled.drop_last() =~= slots.drop_last());
    } else {
        lemma_count_filled_fill(slots.drop_last(), slot, value);
        assert(filled.drop_last() =~= slots.drop_last().update(slot, Some(value)));
    }
}

proof fn lemma_no_slot_filled(slots: Seq<Option<PingResult>>)
    requires
        forall|i: int| 0 <= i < slots.len() ==> slots[i] is None,
    ensures
        count_filled(slots) == 0,
    decreases slots.len(),
{
    if slots.len() > 0 {
        lemma_no_slot_filled(slots.drop_last());
    }
}

/// A filled slot holds the measurement of the first reply in the log that
/// claims it. Returns that reply's place in the log.
pub proof fn lemma_filled_slot_first_claimant(
    requests: Seq<OutboundRequest>,
    replies: Seq<InboundReply>,
    timeout: u64,
    slot: int,
) -> (winner: int)
    requires
        slot_value(requests, replies, timeout, slot) is Some,
    ensures
        0 <= winner < replies.len(),
        claims_slot(requests, timeout, slot)(replies[winner]),
        forall|k: int| 0 <= k < winner ==> !claims_slot(requests, timeout, slot)(#[trigger] replies[k]),
        slot_value(requests, replies, timeout, slot) == Some(measurement(requests, replies[winner])),
    decreases replies.len(),
{
    if replies.len() == 0 {
        reveal(Seq::filter);
        0
    } else {
        let earlier = replies.drop_last();
        assert(earlier.push(replies.last()) =~= replies);
        lemma_claimants_push(requests, earlier, timeout, slot, replies.last());
        if claimants(requests, earlier, timeout, slot).len() > 0 {
            lemma_filled_slot_first_claimant(requests, earlier, timeout, slot)
        } else {
            assert forall|k: int| 0 <= k < earlier.len() implies !claims_slot(
                requests,
                timeout,
                slot,
            )(#[trigger] replies[k]) by {
                if claims_slot(requests, timeout, slot)(earlier[k]) {
                    earlier.lemma_filter_contains(claims_slot(requests, timeout, slot), k);
                }
            }
            replies.len() - 1
        }
    }
}

/// First by arrival wins: the first reply in the log that claims a slot
/// fills it.
pub proof fn lemma_first_claimant_wins(
    requests: Seq<OutboundRequest>,
    replies: Seq<InboundReply>,
    timeout: u64,
    slot: int,
    first: int,
)
    requires
        0 <= first < replies.len(),
        claims_slot(requests, timeout, slot)(replies[first]),
        forall|k: int| 0 <= k < first ==> !claims_slot(requests, timeout, slot)(#[trigger] replies[k]),
    ensures
        slot_value(requests, replies, timeout, slot) == Some(measurement(requests, replies[first])),
{
    replies.lemma_filter_contains(claims_slot(requests, timeout, slot), first);
    let winner = lemma_filled_slot_first_claimant(requests, replies, timeout, slot);
    assert(winner == first);
}

/// A slot that no reply in the log claims stays empty.
pub proof fn lemma_unclaimed_slot_empty(
    requests: Seq<OutboundRequest>,
    replies: Seq<InboundReply>,
    timeout: u64,
    slot: int,
)
    requires
        forall|k: int|
            0 <= k < replies.len() ==> !claims_slot(requests, timeout, slot)(#[trigger] replies[k]),
    ensures
        slot_value(requests, replies, timeout, slot) is None,
{
    if slot_value(requests, replies, timeout, slot) is Some {
        let winner = lemma_filled_slot_first_claimant(requests, replies, timeout, slot);
        assert(!claims_slot(requests, timeout, slot)(replies[winner]));
    }
}

/// A reply is accepted only if it came back within the timeout of its own
/// probe: every filled slot holds a latency of at most `timeout`, measured
/// from the send of that slot's probe to the arrival of a reply in the log.
pub proof fn lemma_filled_slot_within_timeout(
    requests: Seq<OutboundRequest>,
    replies: Seq<InboundReply>,
    timeout: u64,
    slot: int,
)
    requires
        0 <= slot < requests.len(),
        volley_slots(requests, replies, timeout)[slot] is Some,
    ensures
        volley_slots(requests, replies, timeout)[slot]->Some_0.latency <= timeout,
        exists|j: int|
            0 <= j < replies.len() && (#[trigger] replies[j]).sequence == slot
                && volley_slots(requests, replies, timeout)[slot]->Some_0.latency
                == latency_between(requests[slot].send_timestamp, replies[j].arrival_timestamp),
{
    let winner = lemma_filled_slot_first_claimant(requests, replies, timeout, slot);
    assert(replies[winner].sequence == slot);
}

/// A reply that is not admissible changes nothing, wherever it stands in the
/// log: neither one whose sequence number names no probe, nor one that took
/// longer than the timeout.
pub proof fn lemma_inadmissible_reply_ignored(
    requests: Seq<OutboundRequest>,
    replies: Seq<InboundReply>,
    timeout: u64,
    at: int,
    reply: InboundReply,
)
    requires
        0 <= at <= replies.len(),
        !admissible(requests, timeout, reply),
    ensures
        volley_slots(requests, replies.insert(at, reply), timeout) == volley_slots(
            requests,
            replies,
            timeout,
        ),
{
    let before = replies.take(at);
    let after = replies.skip(at);
    assert(replies.insert(at, reply) =~= before.push(reply) + after);
    assert(replies =~= before + after);
    assert forall|slot: int| 0 <= slot < requests.len() implies slot_value(
        requests,
        replies.insert(at, reply),
        timeout,
        slot,
    ) == slot_value(requests, replies, timeout, slot) by {
        let test = claims_slot(requests, timeout, slot);
        lemma_claimants_push(requests, before, timeout, slot, reply);
        Seq::filter_distributes_over_add(before.push(reply), after, test);
        Seq::filter_distributes_over_add(before, after, test);
    }
    assert(volley_slots(requests, replies.insert(at, reply), timeout) =~= volley_slots(
        requests,
        replies,
        timeout,
    ));
}

/// A reply that arrives more than `timeout` after its probe was sent is never
/// accepted, at whatever point of the volley it arrives.
pub proof fn lemma_late_reply_rejected(
    requests: Seq<OutboundRequest>,
    replies: Seq<InboundReply>,
    timeout: u64,
    at: int,
    reply: InboundReply,
)
    requires
        0 <= at <= replies.len(),
        reply.sequence < requests.len(),
        latency_between(requests[reply.sequence as int].send_timestamp, reply.arrival_timestamp)
            > timeout,
    ensures
        volley_slots(requests, replies.insert(at, reply), timeout) == volley_slots(
            requests,
            replies,
            timeout,
        ),
{
    lemma_inadmissible_reply_ignored(requests, replies, timeout, at, reply);
}

/// A slot is written at most once: once the log fills it, no later reply
/// changes it.
pub proof fn lemma_filled_slot_is_final(
    requests: Seq<OutboundRequest>,
    replies: Seq<InboundReply>,
    later: Seq<InboundReply>,
    timeout: u64,
    slot: int,
)
    requires
        slot_value(requests, replies, timeout, slot) is Some,
    ensures
        slot_value(requests, replies + later, timeout, slot) == slot_value(
            requests,
            replies,
            timeout,
            slot,
        ),
{
    Seq::filter_distributes_over_add(replies, later, claims_slot(requests, timeout, slot));
}

/// A later reply for a slot that is already filled changes neither the slots
/// nor the number of replies received.
pub proof fn lemma_duplicate_reply_ignored(
    requests: Seq<OutboundRequest>,
    replies: Seq<InboundReply>,
    timeout: u64,
    duplicate: InboundReply,
)
    requires
        slot_value(requests, replies, timeout, duplicate.sequence as int) is Some,
    ensures
        volley_slots(requests, replies.push(duplicate), timeout) == volley_slots(
            requests,
            replies,
            timeout,
        ),
        count_filled(volley_slots(requests, replies.push(duplicate), timeout)) == count_filled(
            volley_slots(requests, replies, timeout),
        ),
{
    assert forall|slot: int| 0 <= slot < requests.len() implies slot_value(
        requests,
        replies.push(duplicate),
        timeout,
        slot,
    ) == slot_value(requests, replies, timeout, slot) by {
        lemma_claimants_push(requests, replies, timeout, slot, duplicate);
    }
    assert(volley_slots(requests, replies.push(duplicate), timeout) =~= volley_slots(
        requests,
        replies,
        timeout,
    ));
}

proof fn lemma_filled_only_where_delivered(
    slots: Seq<Option<PingResult>>,
    requests: Seq<OutboundRequest>,
)
    requires
        slots.len() == requests.len(),
        forall|i: int| 0 <= i < slots.len() && slots[i] is Some ==> requests[i].delivered,
    ensures
        count_filled(slots) <= count_delivered(requests),
    decreases slots.len(),
{
    if slots.len() > 0 {
        lemma_filled_only_where_delivered(slots.drop_last(), requests.drop_last());
    }
}

/// The counts of a volley keep their order, `received <= sent <= count`, when
/// every admissible reply in the log answers a probe that the transport took.
/// (A reply to a probe that the transport refused is matched all the same, and
/// is then received without having been sent.)
pub proof fn lemma_received_at_most_sent(
    requests: Seq<OutboundRequest>,
    replies: Seq<InboundReply>,
    timeout: u64,
)
    requires
        forall|j: int|
            0 <= j < replies.len() && admissible(requests, timeout, #[trigger] replies[j])
                ==> requests[replies[j].sequence as int].delivered,
    ensures
        count_filled(volley_slots(requests, replies, timeout)) <= count_delivered(requests),
        count_delivered(requests) <= requests.len(),
{
    let slots = volley_slots(requests, replies, timeout);
    assert forall|i: int| 0 <= i < slots.len() && slots[i] is Some implies requests[i].delivered by {
        let winner = lemma_filled_slot_first_claimant(requests, replies, timeout, i);
        assert(replies[winner].sequence == i);
    }
    lemma_filled_only_where_delivered(slots, requests);
    lemma_count_delivered_bound(requests);
}

/// Matches the reply log against the send log.
///
/// The volley has one slot per logged probe. A reply is skipped when its
/// sequence number names no slot, when it arrived more than `timeout` after
/// its probe was sent, or when an earlier reply already filled its slot.
pub fn aggregate(requests: &Vec<OutboundRequest>, replies: &Vec<InboundReply>, timeout: u64) -> (info:
    VolleyInfo)
    ensures
        info.results@ == volley_slots(requests@, replies@, timeout),
        info.sent == count_delivered(requests@),
        info.received == count_filled(info.results@),
        info.lost == requests@.len() - info.received,
        info.received <= requests@.len(),
        info.sent <= requests@.len(),
        info.well_formed(),
        forall|slot: int|
            0 <= slot < requests@.len() && #[trigger] info.results@[slot] is Some
                ==> info.results@[slot]->Some_0.latency <= timeout,
{
    let count = requests.len();
    let mut results: Vec<Option<PingResult>> = Vec::new();
    let mut sent: usize = 0;
    let mut slot: usize = 0;
    while slot < count
        invariant
            count == requests@.len(),
            slot <= count,
            results@.len() == slot,
            forall|i: int| 0 <= i < slot ==> results@[i] is None,
            sent == count_delivered(requests@.take(slot as int)),
        decreases count - slot,
    {
        proof {
            lemma_count_delivered_bound(requests@.take(slot as int));
            assert(requests@.take(slot + 1).drop_last() =~= requests@.take(slot as int));
        }
        if requests[slot].delivered {
            sent += 1;
        }
        results.push(None);
        slot += 1;
    }
    proof {
        assert(requests@.take(count as int) =~= requests@);
        lemma_count_delivered_bound(requests@);
        lemma_no_slot_filled(results@);
        reveal(Seq::filter);
        assert(replies@.take(0) =~= Seq::<InboundReply>::empty());
        assert(results@ =~= volley_slots(requests@, replies@.take(0), timeout));
    }
    let mut received: usize = 0;
    let mut next: usize = 0;
    while next < replies.len()
        invariant
            count == requests@.len(),
            next <= replies@.len(),
            results@ == volley_slots(requests@, replies@.take(next as int), timeout),
            received == count_filled(results@),
        decreases replies@.len() - next,
    {
        let reply = replies[next];
        let ghost seen = replies@.take(next as int);
        proof {
            assert(replies@.take(next + 1) =~= seen.push(reply));
            assert forall|i: int| 0 <= i < count implies #[trigger] claimants(
                requests@,
                seen.push(reply),
                timeout,
                i,
            ) == if claims_slot(requests@, timeout, i)(reply) {
                claimants(requests@, seen, timeout, i).push(reply)
            } else {
                claimants(requests@, seen, timeout, i)
            } by {
                lemma_claimants_push(requests@, seen, timeout, i, reply);
            }
            lemma_count_filled_bound(results@);
        }
        let sequence = reply.sequence as usize;
        if sequence < count {
            let elapsed = latency(requests[sequence].send_timestamp, reply.arrival_timestamp);
            if elapsed <= timeout && results[sequence].is_none() {
                proof {
                    lemma_count_filled_fill(
                        results@,
                        sequence as int,
                        PingResult { latency: elapsed, reply_size: reply.payload_size },
                    );
                    lemma_count_filled_bound(
                        results@.update(
                            sequence as int,
                            Some(PingResult { latency: elapsed, reply_size: reply.payload_size }),
                        ),
                    );
                }
                received += 1;
                results.set(
                    sequence,
                    Some(PingResult { latency: elapsed, reply_size: reply.payload_size }),
                );
            }
        }
        proof {
            assert(results@ =~= volley_slots(requests@, seen.push(reply), timeout));
        }
        next += 1;
    }
    proof {
        assert(replies@.take(replies@.len() as int) =~= replies@);
        lemma_count_filled_bound(results@);
        assert forall|slot: int|
            0 <= slot < requests@.len() && #[trigger] results@[slot] is Some implies results@[slot]->Some_0.latency
            <= timeout by {
            lemma_filled_slot_within_timeout(requests@, replies@, timeout, slot);
        }
    }
    VolleyInfo { results, sent, received, lost: count - received }
}

} // verus!
