//! The receiver task: collection of the replies of one volley.
//!
//! The receiver decides; its caller acts. [`ReceiverTask::next_wait`] says how
//! long to wait for the next packet, or that the collection is over.
//! [`ReceiverTask::on_packet`] judges a packet that came in, and
//! [`ReceiverTask::on_channel_error`] ends the collection when the channel broke.
//! A wait that ends without a packet changes nothing.
//!
//! Until the sender hands its deadline over, each wait lasts one timeout.
//! From then on each wait lasts until the deadline, and the collection ends
//! when the deadline has come.

use crate::address::Address;
use crate::aggregate::InboundReply;
use crate::codec::{classify, spec_classify, Verdict};
use vstd::prelude::*;

verus! {

/// What the caller of the receiver is to do next.
#[derive(Debug, Clone, Copy, PartialEq, Eq, Structural)]
pub enum ReceiverAction {
    /// Wait this long for the next packet.
    Wait(u64),
    /// The collection is over.
    Stop,
}

/// The state of a receiver, as contracts see it.
pub struct ReceiverState {
    /// Address that the probes go to.
    pub target: Address,
    /// Identifier that every probe of the volley carries.
    pub identifier: u16,
    /// Number of probes of the volley.
    pub count: usize,
    /// Time that a reply may take.
    pub timeout: u64,
    /// The instant at which the collection ends, once the sender has handed
    /// it over.
    pub deadline: Option<u64>,
    /// The replies accepted so far, in order of arrival.
    pub replies: Seq<InboundReply>,
    /// Whether the collection is over.
    pub stopped: bool,
}

impl ReceiverState {
    /// The state of a receiver that has seen nothing.
    pub open spec fn initial(target: Address, identifier: u16, count: usize, timeout: u64) -> ReceiverState {
        ReceiverState {
            target,
            identifier,
            count,
            timeout,
            deadline: None,
            replies: Seq::empty(),
            stopped: false,
        }
    }

    /// No more replies are held than the volley has probes.
    pub open spec fn well_formed(self) -> bool {
        self.replies.len() <= self.count
    }

    /// Whether the receiver still takes replies: the collection is not over
    /// and fewer replies are held than the volley has probes.
    pub open spec fn collecting(self) -> bool {
        !self.stopped && self.replies.len() < self.count
    }

    /// Whether the receiver still waits for the sender's deadline.
    pub open spec fn awaits_handoff(self) -> bool {
        self.collecting() && self.deadline is None
    }

    /// The deadline that holds once the caller has looked for the hand-off
    /// and found `handoff`: a deadline taken earlier stays.
    pub open spec fn deadline_given(self, handoff: Option<u64>) -> Option<u64> {
        if self.deadline is Some {
            self.deadline
        } else {
            handoff
        }
    }

    /// What [`ReceiverTask::next_wait`] answers at `now`, with `handoff` found.
    pub open spec fn wait_at(self, handoff: Option<u64>, now: u64) -> ReceiverAction {
        if !self.collecting() {
            ReceiverAction::Stop
        } else {
            match self.deadline_given(handoff) {
                Some(deadline) => if now >= deadline {
                    ReceiverAction::Stop
                } else {
                    ReceiverAction::Wait((deadline - now) as u64)
                },
                None => ReceiverAction::Wait(self.timeout),
            }
        }
    }

    /// The state after [`ReceiverTask::next_wait`] at `now`, with `handoff`
    /// found.
    pub open spec fn waited(self, handoff: Option<u64>, now: u64) -> ReceiverState {
        if !self.collecting() {
            ReceiverState { stopped: true, ..self }
        } else {
            ReceiverState {
                deadline: self.deadline_given(handoff),
                stopped: self.wait_at(handoff, now) == ReceiverAction::Stop,
                ..self
            }
        }
    }

    /// The verdict on a packet `raw` from `source`.
    pub open spec fn verdict_on(self, source: Address, raw: Seq<u8>) -> Verdict {
        spec_classify(self.target, self.identifier, source, raw)
    }

    /// The state after a packet `raw` from `source` came in at `now`: an
    /// accepted reply is appended with `now` as its arrival, anything but an
    /// echo reply from the target ends the collection, every other packet
    /// changes nothing. A receiver that no longer collects changes nothing.
    pub open spec fn received(self, source: Address, raw: Seq<u8>, now: u64) -> ReceiverState {
        if !self.collecting() {
            self
        } else {
            match self.verdict_on(source, raw) {
                Verdict::Accepted { sequence, payload_size } => ReceiverState {
                    replies: self.replies.push(
                        InboundReply { sequence, arrival_timestamp: now, payload_size },
                    ),
                    ..self
                },
                Verdict::Terminal => ReceiverState { stopped: true, ..self },
                _ => self,
            }
        }
    }

    /// The state after the channel broke.
    pub open spec fn broken(self) -> ReceiverState {
        ReceiverState { stopped: true, ..self }
    }
}

/// The receiver of one volley.
pub struct ReceiverTask {
    target: Address,
    identifier: u16,
    count: usize,
    timeout: u64,
    deadline: Option<u64>,
    replies: Vec<InboundReply>,
    stopped: bool,
}

impl View for ReceiverTask {
    type V = ReceiverState;

    closed spec fn view(&self) -> ReceiverState {
        ReceiverState {
            target: self.target,
            identifier: self.identifier,
            count: self.count,
            timeout: self.timeout,
            deadline: self.deadline,
            replies: self.replies@,
            stopped: self.stopped,
        }
    }
}

impl ReceiverTask {
    /// A receiver for a volley of `count` probes towards `target`.
    pub fn new(target: Address, identifier: u16, count: usize, timeout: u64) -> (receiver: ReceiverTask)
        ensures
            receiver@ == ReceiverState::initial(target, identifier, count, timeout),
            receiver@.well_formed(),
    {
        ReceiverTask {
            target,
            identifier,
            count,
            timeout,
            deadline: None,
            replies: Vec::new(),
            stopped: false,
        }
    }

    /// Whether the caller is to look for the sender's hand-off before it asks
    /// for the next wait.
    pub fn awaits_handoff(&self) -> (awaits: bool)
        ensures
            awaits == self@.awaits_handoff(),
    {
        !self.stopped && self.replies.len() < self.count && self.deadline.is_none()
    }

    /// Decides how long to wait for the next packet at the instant `now`.
    /// `handoff` is the deadline that the sender handed over, if the caller
    /// found one.
    ///
    /// The collection is over when as many replies are held as the volley has
    /// probes, or when the deadline has come. Without a deadline the wait
    /// lasts one timeout; with one, it lasts until the deadline.
    pub fn next_wait(&mut self, handoff: Option<u64>, now: u64) -> (action: ReceiverAction)
        requires
            old(self)@.well_formed(),
        ensures
            final(self)@.well_formed(),
            action == old(self)@.wait_at(handoff, now),
            final(self)@ == old(self)@.waited(handoff, now),
    {
        if self.stopped || self.replies.len() >= self.count {
            self.stopped = true;
            return ReceiverAction::Stop;
        }
        if self.deadline.is_none() {
            self.deadline = handoff;
        }
        match self.deadline {
            Some(deadline) => {
                if now >= deadline {
                    self.stopped = true;
                    ReceiverAction::Stop
                } else {
                    ReceiverAction::Wait(deadline - now)
                }
            },
            None => ReceiverAction::Wait(self.timeout),
        }
    }

    /// Judges a packet `raw` that came from `source` at the instant `now`,
    /// and takes it into the log when it is a reply to this volley.
    pub fn on_packet(&mut self, source: &Address, raw: &[u8], now: u64) -> (verdict: Verdict)
        requires
            old(self)@.well_formed(),
        ensures
            final(self)@.well_formed(),
            verdict == old(self)@.verdict_on(*source, raw@),
            final(self)@ == old(self)@.received(*source, raw@, now),
    {
        let verdict = classify(&self.target, self.identifier, source, raw);
        if !self.stopped && self.replies.len() < self.count {
            match verdict {
                Verdict::Accepted { sequence, payload_size } => {
                    self.replies.push(
                        InboundReply { sequence, arrival_timestamp: now, payload_size },
                    );
                },
                Verdict::Terminal => {
                    self.stopped = true;
                },
                _ => {},
            }
        }
        verdict
    }

    /// Ends the collection: the channel failed, and what was collected so far
    /// stands.
    pub fn on_channel_error(&mut self)
        requires
            old(self)@.well_formed(),
        ensures
            final(self)@.well_formed(),
            final(self)@ == old(self)@.broken(),
    {
        self.stopped = true;
    }

    /// The replies accepted so far, in order of arrival.
    pub fn replies(&self) -> (replies: &Vec<InboundReply>)
        ensures
            replies@ == self@.replies,
    {
        &self.replies
    }

    /// Gives up the receiver for the replies it accepted, in order of
    /// arrival.
    pub fn into_replies(self) -> (replies: Vec<InboundReply>)
        ensures
            replies@ == self@.replies,
    {
        self.replies
    }

    /// Identifier that every probe of the volley carries.
    pub fn identifier(&self) -> (identifier: u16)
        ensures
            identifier == self@.identifier,
    {
        self.identifier
    }

    /// Whether the collection is over.
    pub fn is_stopped(&self) -> (stopped: bool)
        ensures
            stopped == self@.stopped,
    {
        self.stopped
    }
}

} // verus!
