//! One volley from its start to its result.
//!
//! The caller opens the transport and tells [`begin_volley`] how that went.
//! A volley that could open its transport has two tasks, a sender and a
//! receiver, which share nothing; the caller runs them side by side and
//! gives both logs to [`finish_volley`].

use crate::address::{spec_ip_header_len, ip_header_len, Address, IpVersion};
use crate::aggregate::{aggregate, volley_slots, count_delivered, count_filled, InboundReply, VolleyInfo};
use crate::codec::ECHO_HEADER_LEN;
use crate::entropy::random_identifier;
use crate::receiver::{ReceiverState, ReceiverTask};
use crate::sender::{SenderState, SenderTask};
use vstd::prelude::*;
use vstd::string::StringExecFns;

verus! {

/// Length of an Ethernet frame header.
pub const FRAME_HEADER_LEN: usize = 14;

/// Number of packets that the transport's buffer holds.
pub const BUFFERED_PACKETS: usize = 16;

/// How a volley ended.
#[derive(Debug)]
pub enum VolleyResult {
    /// The volley ran; its outcome.
    Success(VolleyInfo),
    /// The volley could not run; why.
    Error(String),
}

/// What a volley is asked to do.
#[derive(Debug, Clone, Copy, PartialEq, Eq, Structural)]
pub struct VolleyPlan {
    /// Address that the probes go to.
    pub target: Address,
    /// Number of probes.
    pub count: usize,
    /// Number of payload bytes of each probe.
    pub payload_size: usize,
    /// Time between the sends of two probes, in nanoseconds.
    pub interval: u64,
    /// Time that a reply may take, in nanoseconds.
    pub timeout: u64,
}

/// The two tasks of a volley.
pub struct VolleyTasks {
    /// Dispatches the probes.
    pub sender: SenderTask,
    /// Collects the replies.
    pub receiver: ReceiverTask,
}

/// Length in bytes of one probe on the wire: frame header, IP header, echo
/// header and payload.
pub open spec fn wire_packet_len(version: IpVersion, payload_size: usize) -> int {
    FRAME_HEADER_LEN + spec_ip_header_len(version) + ECHO_HEADER_LEN + payload_size
}

/// The size of the buffer to ask the transport for: room for sixteen probes
/// on the wire. There is none when that size is more than a `usize` holds.
pub fn transport_buffer_size(version: IpVersion, payload_size: usize) -> (size: Option<usize>)
    ensures
        size is Some <==> wire_packet_len(version, payload_size) * BUFFERED_PACKETS <= usize::MAX,
        size matches Some(bytes) ==> bytes == wire_packet_len(version, payload_size) * BUFFERED_PACKETS,
{
    let headers = FRAME_HEADER_LEN + ip_header_len(version) + ECHO_HEADER_LEN;
    match payload_size.checked_add(headers) {
        Some(packet) => packet.checked_mul(BUFFERED_PACKETS),
        None => None,
    }
}

/// The message of a volley whose transport could not be opened.
pub open spec fn open_failure_message(reason: Seq<char>) -> Seq<char> {
    "Failed to create transport channel: "@ + reason
}

/// The tasks of a volley that starts at `now` and whose probes carry
/// `identifier`.
pub fn begin_volley_with(plan: &VolleyPlan, identifier: u16, now: u64) -> (tasks: VolleyTasks)
    ensures
        tasks.sender@ == SenderState::initial(
            plan.target.spec_version(),
            identifier,
            plan.payload_size,
            plan.count,
            plan.interval,
            plan.timeout,
            now,
        ),
        tasks.receiver@ == ReceiverState::initial(plan.target, identifier, plan.count, plan.timeout),
        tasks.sender@.well_formed(),
        tasks.receiver@.well_formed(),
{
    VolleyTasks {
        sender: SenderTask::new(
            plan.target.version(),
            identifier,
            plan.payload_size,
            plan.count,
            plan.interval,
            plan.timeout,
            now,
        ),
        receiver: ReceiverTask::new(plan.target, identifier, plan.count, plan.timeout),
    }
}

/// Begins a volley at the instant `now`. `opened` tells how opening the
/// transport went.
///
/// A transport that could not be opened fails the volley: there are no tasks,
/// and the error says why. Otherwise the volley gets a random identifier, and
/// a sender and a receiver that have done nothing yet.
pub fn begin_volley(plan: &VolleyPlan, opened: Result<(), String>, now: u64) -> (begun: Result<
    VolleyTasks,
    VolleyResult,
>)
    ensures
        begun is Ok <==> opened is Ok,
        begun matches Ok(tasks) ==> {
            &&& tasks.sender@ == SenderState::initial(
                plan.target.spec_version(),
                tasks.sender@.identifier,
                plan.payload_size,
                plan.count,
                plan.interval,
                plan.timeout,
                now,
            )
            &&& tasks.receiver@ == ReceiverState::initial(
                plan.target,
                tasks.sender@.identifier,
                plan.count,
                plan.timeout,
            )
            &&& tasks.sender@.well_formed()
            &&& tasks.receiver@.well_formed()
        },
        begun matches Err(failure) ==> {
            &&& failure matches VolleyResult::Error(message)
            &&& opened matches Err(reason)
            &&& message@ == open_failure_message(reason@)
        },
{
    match opened {
        Ok(_) => {
            let identifier = random_identifier();
            Ok(begin_volley_with(plan, identifier, now))
        },
        Err(reason) => {
            let message = String::from_str("Failed to create transport channel: ").concat(
                reason.as_str(),
            );
            Err(VolleyResult::Error(message))
        },
    }
}

/// Ends a volley: matches the replies that the receiver collected against the
/// probes that the sender logged. The result has one slot for each probe
/// logged, which is every probe of the volley once the sender has handed its
/// deadline off.
pub fn finish_volley(sender: &SenderTask, replies: &Vec<InboundReply>) -> (result: VolleyResult)
    requires
        sender@.well_formed(),
    ensures
        result matches VolleyResult::Success(info) && {
            &&& info.results@ == volley_slots(sender@.log, replies@, sender@.timeout)
            &&& sender@.handed_off ==> info.results@.len() == sender@.count
            &&& info.sent == count_delivered(sender@.log)
            &&& info.received == count_filled(info.results@)
            &&& info.lost == info.results@.len() - info.received
            &&& info.received <= info.results@.len()
            &&& info.sent <= info.results@.len()
            &&& info.well_formed()
        },
{
    VolleyResult::Success(aggregate(sender.log(), replies, sender.timeout()))
}

} // verus!
