//! The deadline hand-off: one value that passes from the sender to the
//! receiver, at most once.

use vstd::prelude::*;

verus! {

/// The sending end of a `oneshot` channel. Verus sees nothing inside it.
#[verifier::external_type_specification]
#[verifier::external_body]
#[verifier::reject_recursive_types(T)]
pub struct ExHandoffSender<T>(oneshot::Sender<T>);

/// The receiving end of a `oneshot` channel. Verus sees nothing inside it.
#[verifier::external_type_specification]
#[verifier::external_body]
#[verifier::reject_recursive_types(T)]
pub struct ExHandoffReceiver<T>(oneshot::Receiver<T>);

/// The error of a blocking receive on a `oneshot` channel. Nothing here
/// receives that way; the type is declared because the receiving end names it.
#[verifier::external_type_specification]
#[verifier::external_body]
pub struct ExRecvError(oneshot::RecvError);

/// Why `try_recv` of a `oneshot` receiver found no value: the channel is
/// still empty, or it is closed.
#[verifier::external_type_specification]
pub struct ExTryRecvError(oneshot::TryRecvError);

/// Calls `send` of `oneshot::Sender`, which puts the value into the channel
/// and fails when the receiving end is gone. Whether it is gone is up to the
/// other thread, so nothing is stated of the result.
///
/// Trusted: the body is not verified.
#[verifier::external_body]
fn send_instant(channel: oneshot::Sender<u64>, instant: u64) -> (delivered: bool) {
    channel.send(instant).is_ok()
}

/// Calls `try_recv` of `oneshot::Receiver`, which takes the value out of the
/// channel if one is there and does not block. What is there is up to the
/// other thread, so nothing is stated of the result.
///
/// Trusted: the body is not verified.
#[verifier::external_body]
fn try_receive_instant(channel: &oneshot::Receiver<u64>) -> (found: Result<u64, oneshot::TryRecvError>) {
    channel.try_recv()
}

/// What a look into the hand-off channel found.
#[derive(Debug, Clone, Copy, PartialEq, Eq, Structural)]
pub enum HandoffProbe {
    /// The sender has not handed its deadline over yet.
    Pending,
    /// The sender's deadline.
    Deadline(u64),
    /// The channel is closed: the sender is gone without a hand-off, or the
    /// deadline was taken before.
    Closed,
}

impl HandoffProbe {
    /// The deadline, if the look found one.
    pub open spec fn spec_deadline(&self) -> Option<u64> {
        match self {
            HandoffProbe::Deadline(deadline) => Some(*deadline),
            _ => None,
        }
    }

    /// The deadline, if the look found one.
    #[verifier::when_used_as_spec(spec_deadline)]
    pub fn deadline(&self) -> (deadline: Option<u64>)
        ensures
            deadline == self.spec_deadline(),
    {
        match self {
            HandoffProbe::Deadline(deadline) => Some(*deadline),
            _ => None,
        }
    }
}

/// Hands the deadline over to the receiver. The answer is whether the
/// receiver was still there to take it; a sender has nothing to do about a
/// receiver that is gone.
pub fn deliver_handoff(channel: oneshot::Sender<u64>, deadline: u64) -> (delivered: bool) {
    send_instant(channel, deadline)
}

/// Looks into the hand-off channel without waiting; [`read_probe`] reads its answer.
pub fn probe_handoff(channel: &oneshot::Receiver<u64>) -> (probe: HandoffProbe) {
    read_probe(try_receive_instant(channel))
}

/// What a look has found when the channel answered it with `found`: a value
/// is the sender's deadline, an empty channel means that the hand-off is
/// still to come, a closed one that none will come.
pub open spec fn probe_of(found: Result<u64, oneshot::TryRecvError>) -> HandoffProbe {
    match found {
        Ok(deadline) => HandoffProbe::Deadline(deadline),
        Err(oneshot::TryRecvError::Empty) => HandoffProbe::Pending,
        Err(oneshot::TryRecvError::Disconnected) => HandoffProbe::Closed,
    }
}

/// Reads the channel's answer to a look.
pub fn read_probe(found: Result<u64, oneshot::TryRecvError>) -> (probe: HandoffProbe)
    ensures
        probe == probe_of(found),
{
    match found {
        Ok(deadline) => HandoffProbe::Deadline(deadline),
        Err(oneshot::TryRecvError::Empty) => HandoffProbe::Pending,
        Err(oneshot::TryRecvError::Disconnected) => HandoffProbe::Closed,
    }
}

} // verus!
