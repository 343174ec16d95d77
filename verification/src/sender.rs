//! The sender task: paced dispatch of the probes of one volley.
//!
//! The sender decides; its caller acts. [`SenderTask::advance`] says what to do at
//! a given clock reading: transmit a probe, pause until the next one is due,
//! or hand the receiver its deadline. [`SenderTask::settle`] takes note of what
//! the transport said of the probe just transmitted.

use crate::address::IpVersion;
use crate::aggregate::OutboundRequest;
use crate::codec::{echo_request_bytes, new_echo_request, MAX_PAYLOAD_LEN};
use vstd::prelude::*;

verus! {

/// The sum of an instant and a duration, held at the largest instant that the
/// clock can read.
pub open spec fn saturating_sum(instant: u64, duration: u64) -> u64 {
    if instant + duration > u64::MAX {
        u64::MAX
    } else {
        (instant + duration) as u64
    }
}

/// The instant at which probe number `index` of a volley is due: `index`
/// intervals after the start, held at the largest instant that the clock can
/// read.
pub open spec fn scheduled_send_time(start: u64, interval: u64, index: nat) -> u64 {
    if start + index * interval > u64::MAX {
        u64::MAX
    } else {
        (start + index * interval) as u64
    }
}

/// The sequence number that probe number `index` carries on the wire: the
/// index itself, as far as 16 bits hold it.
pub open spec fn wire_sequence(index: nat) -> u16 {
    (index % 0x1_0000) as u16
}

/// What the caller of the sender is to do next.
#[derive(Debug)]
pub enum SenderAction {
    /// Send these bytes to the target, then report with [`SenderTask::settle`].
    Transmit(Vec<u8>),
    /// The probe that is due cannot be put on the wire: it is logged as not
    /// delivered.
    Unsendable,
    /// Sleep for this long: the next probe is not due yet.
    Pause(u64),
    /// Every probe was dispatched: give the receiver this instant as its
    /// deadline.
    HandOff(u64),
    /// The deadline was handed off: nothing is left to do.
    Idle,
}

/// The state of a sender, as contracts see it.
pub struct SenderState {
    /// Version of the protocol that the probes use.
    pub version: IpVersion,
    /// Identifier that every probe of the volley carries.
    pub identifier: u16,
    /// Number of payload bytes of each probe.
    pub payload_size: usize,
    /// Number of probes of the volley.
    pub count: usize,
    /// Time between the sends of two probes.
    pub interval: u64,
    /// Time that a reply may take.
    pub timeout: u64,
    /// Instant at which the first probe is due.
    pub start: u64,
    /// Instant at which the next probe is due.
    pub next_send_time: u64,
    /// The probes dispatched so far, in send order.
    pub log: Seq<OutboundRequest>,
    /// Whether the deadline was handed off.
    pub handed_off: bool,
}

impl SenderState {
    /// The state of a sender that has dispatched nothing.
    pub open spec fn initial(
        version: IpVersion,
        identifier: u16,
        payload_size: usize,
        count: usize,
        interval: u64,
        timeout: u64,
        start: u64,
    ) -> SenderState {
        SenderState {
            version,
            identifier,
            payload_size,
            count,
            interval,
            timeout,
            start,
            next_send_time: start,
            log: Seq::empty(),
            handed_off: false,
        }
    }

    /// No more probes are logged than the volley has; probe `i` carries the
    /// wire sequence of `i`; the next probe is due one interval after each
    /// probe dispatched; the deadline is handed off only when every probe was
    /// dispatched.
    pub open spec fn well_formed(self) -> bool {
        &&& self.log.len() <= self.count
        &&& forall|i: int|
            0 <= i < self.log.len() ==> (#[trigger] self.log[i]).sequence == wire_sequence(i as nat)
        &&& self.next_send_time == scheduled_send_time(self.start, self.interval, self.log.len())
        &&& self.handed_off ==> self.log.len() == self.count
    }

    /// Whether a probe is left to dispatch.
    pub open spec fn has_probe_left(self) -> bool {
        !self.handed_off && self.log.len() < self.count
    }

    /// Whether a probe is left and due at `now`.
    pub open spec fn probe_due(self, now: u64) -> bool {
        self.has_probe_left() && now >= self.next_send_time
    }

    /// Whether a probe can be put on the wire.
    pub open spec fn sendable(self) -> bool {
        self.payload_size <= MAX_PAYLOAD_LEN
    }

    /// The state after the next probe was dispatched at `now`: the probe is
    /// logged with that instant, not yet delivered, and the one after it is
    /// due an interval after this one was.
    pub open spec fn dispatched(self, now: u64) -> SenderState {
        SenderState {
            log: self.log.push(
                OutboundRequest {
                    sequence: wire_sequence(self.log.len()),
                    send_timestamp: now,
                    delivered: false,
                },
            ),
            next_send_time: saturating_sum(self.next_send_time, self.interval),
            ..self
        }
    }

    /// The state after the transport reported on the last probe dispatched.
    pub open spec fn settled(self, delivered: bool) -> SenderState {
        if self.log.len() > 0 && !self.handed_off {
            SenderState {
                log: self.log.update(
                    self.log.len() - 1,
                    OutboundRequest { delivered, ..self.log.last() },
                ),
                ..self
            }
        } else {
            self
        }
    }

    /// The state once the deadline was handed off.
    pub open spec fn finished(self) -> SenderState {
        SenderState { handed_off: true, ..self }
    }

    /// The state after `probes` further probes, each dispatched at the very
    /// instant at which it is due and taken by the transport at once.
    pub open spec fn run_on_schedule(self, probes: nat) -> SenderState
        decreases probes,
    {
        if probes == 0 {
            self
        } else {
            let before = self.run_on_schedule((probes - 1) as nat);
            before.advanced(before.next_send_time).settled(true)
        }
    }

    /// The state after [`SenderTask::advance`] at `now`.
    pub open spec fn advanced(self, now: u64) -> SenderState {
        if self.handed_off {
            self
        } else if self.log.len() >= self.count {
            self.finished()
        } else if now < self.next_send_time {
            self
        } else {
            self.dispatched(now)
        }
    }
}

/// The sender of one volley.
pub struct SenderTask {
    version: IpVersion,
    identifier: u16,
    payload_size: usize,
    count: usize,
    interval: u64,
    timeout: u64,
    start: u64,
    next_send_time: u64,
    log: Vec<OutboundRequest>,
    handed_off: bool,
}

impl View for SenderTask {
    type V = SenderState;

    closed spec fn view(&self) -> SenderState {
        SenderState {
            version: self.version,
            identifier: self.identifier,
            payload_size: self.payload_size,
            count: self.count,
            interval: self.interval,
            timeout: self.timeout,
            start: self.start,
            next_send_time: self.next_send_time,
            log: self.log@,
            handed_off: self.handed_off,
        }
    }
}

/// The next probe's due time moves on by one interval with each probe.
pub proof fn lemma_schedule_step(start: u64, interval: u64, index: nat)
    ensures
        saturating_sum(scheduled_send_time(start, interval, index), interval)
            == scheduled_send_time(start, interval, index + 1),
{
    assert((index + 1) * interval == index * interval + interval) by (nonlinear_arith);
    assert(index * interval >= 0) by (nonlinear_arith);
}

/// In a volley of at most 65 536 probes each probe carries its own index as
/// its sequence number: the numbers are dense from zero, and no two probes
/// share one.
pub proof fn lemma_sequences_dense(state: SenderState)
    requires
        state.well_formed(),
        state.count <= 0x1_0000,
    ensures
        forall|i: int| 0 <= i < state.log.len() ==> (#[trigger] state.log[i]).sequence == i,
        forall|i: int, j: int|
            0 <= i < j < state.log.len() ==> (#[trigger] state.log[i]).sequence != (
            #[trigger] state.log[j]).sequence,
{
    assert forall|i: int| 0 <= i < state.log.len() implies (#[trigger] state.log[i]).sequence
        == i by {
        assert(state.log[i].sequence == wire_sequence(i as nat));
    }
}

proof fn lemma_run_on_schedule(begun: SenderState, probes: nat)
    requires
        begun.well_formed(),
        begun.log.len() == 0,
        !begun.handed_off,
        probes <= begun.count,
        probes >= 1 ==> begun.start + (probes - 1) * begun.interval <= u64::MAX,
    ensures
        ({
            let run = begun.run_on_schedule(probes);
            &&& run.well_formed()
            &&& !run.handed_off
            &&& run.log.len() == probes
            &&& run.count == begun.count
            &&& run.start == begun.start
            &&& run.interval == begun.interval
            &&& run.timeout == begun.timeout
            &&& forall|i: int|
                0 <= i < probes ==> {
                    &&& (#[trigger] run.log[i]).send_timestamp == begun.start + i * begun.interval
                    &&& run.log[i].delivered
                }
        }),
    decreases probes,
{
    if probes > 0 {
        let earlier = (probes - 1) as nat;
        assert(earlier >= 1 ==> begun.start + (earlier - 1) * begun.interval <= u64::MAX) by {
            if earlier >= 1 {
                assert((earlier - 1) * begun.interval <= (probes - 1) * begun.interval)
                    by (nonlinear_arith)
                    requires
                        earlier - 1 <= probes - 1,
                        begun.interval >= 0,
                ;
            }
        }
        lemma_run_on_schedule(begun, earlier);
        let before = begun.run_on_schedule(earlier);
        lemma_schedule_step(before.start, before.interval, earlier);
        let run = begun.run_on_schedule(probes);
        assert(before.next_send_time == begun.start + earlier * begun.interval);
        assert forall|i: int| 0 <= i < probes implies {
            &&& (#[trigger] run.log[i]).send_timestamp == begun.start + i * begun.interval
            &&& run.log[i].delivered
        } by {
            if i < earlier {
                assert(run.log[i] == before.log[i]);
            }
        }
    }
}

/// The overlap of sending and receiving, on the sender's clock: in a volley
/// of at least one probe whose probes each go out at the instant at which
/// they are due, probe `i` goes out `i` intervals after the start, and the
/// deadline handed off when the last probe has gone out lies `count - 1`
/// intervals and one timeout after the start. (The instants are to fit the
/// clock.)
pub proof fn lemma_on_schedule_deadline(begun: SenderState)
    requires
        begun.well_formed(),
        begun.log.len() == 0,
        !begun.handed_off,
        begun.count >= 1,
        begun.start + (begun.count - 1) * begun.interval + begun.timeout <= u64::MAX,
    ensures
        ({
            let run = begun.run_on_schedule(begun.count as nat);
            let last = run.log.last().send_timestamp;
            &&& run.log.len() == begun.count
            &&& forall|i: int|
                0 <= i < begun.count ==> (#[trigger] run.log[i]).send_timestamp == begun.start + i
                    * begun.interval
            &&& run.advanced(last) == run.finished()
            &&& saturating_sum(last, run.timeout) == begun.start + (begun.count - 1) * begun.interval
                + begun.timeout
        }),
{
    lemma_run_on_schedule(begun, begun.count as nat);
}

impl SenderTask {
    /// A sender for a volley of `count` probes that starts at `start`.
    pub fn new(
        version: IpVersion,
        identifier: u16,
        payload_size: usize,
        count: usize,
        interval: u64,
        timeout: u64,
        start: u64,
    ) -> (sender: SenderTask)
        ensures
            sender@ == SenderState::initial(
                version,
                identifier,
                payload_size,
                count,
                interval,
                timeout,
                start,
            ),
            sender@.well_formed(),
    {
        let sender = SenderTask {
            version,
            identifier,
            payload_size,
            count,
            interval,
            timeout,
            start,
            next_send_time: start,
            log: Vec::new(),
            handed_off: false,
        };
        assert(0 * interval == 0) by (nonlinear_arith);
        sender
    }

    /// Decides what is to be done at the instant `now`.
    ///
    /// Once the deadline is handed off nothing is left to do. When every
    /// probe was dispatched the deadline is handed off: it lies one timeout
    /// after `now`. When a probe is left but not yet due, the caller pauses
    /// until it is. A probe that is due is logged with `now` as its send
    /// timestamp, and goes out unless no echo message has a payload of the
    /// volley's size.
    pub fn advance(&mut self, now: u64) -> (action: SenderAction)
        requires
            old(self)@.well_formed(),
        ensures
            final(self)@.well_formed(),
            final(self)@ == old(self)@.advanced(now),
            match action {
                SenderAction::Idle => old(self)@.handed_off,
                SenderAction::HandOff(deadline) => {
                    &&& !old(self)@.handed_off
                    &&& old(self)@.log.len() == old(self)@.count
                    &&& deadline == saturating_sum(now, old(self)@.timeout)
                },
                SenderAction::Pause(wait) => {
                    &&& old(self)@.has_probe_left()
                    &&& now < old(self)@.next_send_time
                    &&& wait == old(self)@.next_send_time - now
                },
                SenderAction::Transmit(packet) => {
                    &&& old(self)@.probe_due(now)
                    &&& old(self)@.sendable()
                    &&& exists|payload: Seq<u8>|
                        payload.len() == old(self)@.payload_size && packet@
                            == #[trigger] echo_request_bytes(
                            old(self)@.version,
                            old(self)@.identifier,
                            wire_sequence(old(self)@.log.len()),
                            payload,
                        )
                },
                SenderAction::Unsendable => {
                    &&& old(self)@.probe_due(now)
                    &&& !old(self)@.sendable()
                },
            },
    {
        if self.handed_off {
            return SenderAction::Idle;
        }
        if self.log.len() >= self.count {
            self.handed_off = true;
            return SenderAction::HandOff(now.saturating_add(self.timeout));
        }
        if now < self.next_send_time {
            return SenderAction::Pause(self.next_send_time - now);
        }
        let index = self.log.len();
        let sequence = (index % 0x1_0000) as u16;
        proof {
            lemma_schedule_step(self.start, self.interval, index as nat);
        }
        self.log.push(OutboundRequest { sequence, send_timestamp: now, delivered: false });
        self.next_send_time = self.next_send_time.saturating_add(self.interval);
        match new_echo_request(self.version, self.identifier, sequence, self.payload_size) {
            Some(packet) => SenderAction::Transmit(packet),
            None => SenderAction::Unsendable,
        }
    }

    /// Takes note of whether the transport took the probe dispatched last.
    /// Before the first probe and after the hand-off there is nothing to
    /// note.
    pub fn settle(&mut self, delivered: bool)
        requires
            old(self)@.well_formed(),
        ensures
            final(self)@.well_formed(),
            final(self)@ == old(self)@.settled(delivered),
    {
        let len = self.log.len();
        if len > 0 && !self.handed_off {
            let last = self.log[len - 1];
            self.log.set(
                len - 1,
                OutboundRequest {
                    sequence: last.sequence,
                    send_timestamp: last.send_timestamp,
                    delivered,
                },
            );
            assert(self@.log =~= old(self)@.settled(delivered).log);
        }
    }

    /// The probes dispatched so far, in send order.
    pub fn log(&self) -> (log: &Vec<OutboundRequest>)
        ensures
            log@ == self@.log,
    {
        &self.log
    }

    /// Time that a reply may take.
    pub fn timeout(&self) -> (timeout: u64)
        ensures
            timeout == self@.timeout,
    {
        self.timeout
    }

    /// Identifier that every probe of the volley carries.
    pub fn identifier(&self) -> (identifier: u16)
        ensures
            identifier == self@.identifier,
    {
        self.identifier
    }

    /// Whether the deadline was handed off.
    pub fn is_finished(&self) -> (finished: bool)
        ensures
            finished == self@.handed_off,
    {
        self.handed_off
    }
}

} // verus!
