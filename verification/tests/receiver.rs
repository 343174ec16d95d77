use volley::address::Address;
use volley::aggregate::InboundReply;
use volley::codec::Verdict;
use volley::receiver::{ReceiverAction, ReceiverTask};

const SECOND: u64 = 1_000_000_000;
const TARGET: Address = Address::V4(0xC0A8_0001);
const OTHER: Address = Address::V4(0xC0A8_0002);
const ID: u16 = 0x7777;

fn echo_reply(identifier: u16, sequence: u16, payload: &[u8]) -> Vec<u8> {
    let mut message = vec![0, 0, 0, 0];
    message.extend_from_slice(&identifier.to_be_bytes());
    message.extend_from_slice(&sequence.to_be_bytes());
    message.extend_from_slice(payload);
    let sum = pnet::util::checksum(&message, 1);
    message[2..4].copy_from_slice(&sum.to_be_bytes());
    message
}

fn accepted(sequence: u16, arrival_timestamp: u64, payload_size: usize) -> InboundReply {
    InboundReply { sequence, arrival_timestamp, payload_size }
}

#[test]
fn without_a_deadline_each_wait_lasts_the_timeout() {
    let mut receiver = ReceiverTask::new(TARGET, ID, 3, SECOND);
    assert!(receiver.awaits_handoff());
    assert_eq!(receiver.next_wait(None, 0), ReceiverAction::Wait(SECOND));
    assert_eq!(receiver.next_wait(None, 50 * SECOND), ReceiverAction::Wait(SECOND));
    assert!(receiver.awaits_handoff());
    assert!(!receiver.is_stopped());
}

#[test]
fn with_a_deadline_each_wait_lasts_until_it() {
    let mut receiver = ReceiverTask::new(TARGET, ID, 3, SECOND);
    assert_eq!(receiver.next_wait(Some(5000), 1000), ReceiverAction::Wait(4000));
    assert!(!receiver.awaits_handoff());
    assert_eq!(receiver.next_wait(None, 4999), ReceiverAction::Wait(1));
    assert!(!receiver.is_stopped());
}

#[test]
fn the_first_deadline_stays() {
    let mut receiver = ReceiverTask::new(TARGET, ID, 3, SECOND);
    assert_eq!(receiver.next_wait(Some(5000), 1000), ReceiverAction::Wait(4000));
    assert_eq!(receiver.next_wait(Some(9000), 2000), ReceiverAction::Wait(3000));
}

#[test]
fn collection_ends_when_the_deadline_has_come() {
    let mut receiver = ReceiverTask::new(TARGET, ID, 3, SECOND);
    assert_eq!(receiver.next_wait(Some(5000), 5000), ReceiverAction::Stop);
    assert!(receiver.is_stopped());
    assert_eq!(receiver.next_wait(None, 0), ReceiverAction::Stop);

    let mut late = ReceiverTask::new(TARGET, ID, 3, SECOND);
    assert_eq!(late.next_wait(Some(5000), 4999), ReceiverAction::Wait(1));
    assert_eq!(late.next_wait(None, 7000), ReceiverAction::Stop);
}

#[test]
fn collection_ends_when_every_probe_has_a_reply() {
    let mut receiver = ReceiverTask::new(TARGET, ID, 2, SECOND);
    assert_eq!(receiver.next_wait(None, 0), ReceiverAction::Wait(SECOND));
    receiver.on_packet(&TARGET, &echo_reply(ID, 0, &[1, 2]), 10);
    assert_eq!(receiver.next_wait(None, 11), ReceiverAction::Wait(SECOND));
    receiver.on_packet(&TARGET, &echo_reply(ID, 1, &[1, 2]), 20);
    assert!(!receiver.awaits_handoff());
    assert_eq!(receiver.next_wait(Some(9 * SECOND), 21), ReceiverAction::Stop);
    assert!(receiver.is_stopped());
    assert_eq!(receiver.replies(), &vec![accepted(0, 10, 2), accepted(1, 20, 2)]);
}

#[test]
fn volley_of_no_probes_collects_nothing() {
    let mut receiver = ReceiverTask::new(TARGET, ID, 0, SECOND);
    assert!(!receiver.awaits_handoff());
    assert_eq!(receiver.next_wait(None, 0), ReceiverAction::Stop);
    assert_eq!(
        receiver.on_packet(&TARGET, &echo_reply(ID, 0, &[]), 5),
        Verdict::Accepted { sequence: 0, payload_size: 0 }
    );
    assert!(receiver.into_replies().is_empty());
}

#[test]
fn an_accepted_reply_is_logged_with_its_arrival() {
    let mut receiver = ReceiverTask::new(TARGET, ID, 4, SECOND);
    let verdict = receiver.on_packet(&TARGET, &echo_reply(ID, 3, &[0; 56]), 123_456);
    assert_eq!(verdict, Verdict::Accepted { sequence: 3, payload_size: 56 });
    assert_eq!(receiver.replies(), &vec![accepted(3, 123_456, 56)]);
    assert!(!receiver.is_stopped());
}

#[test]
fn a_sequence_out_of_range_is_logged_all_the_same() {
    let mut receiver = ReceiverTask::new(TARGET, ID, 10, SECOND);
    receiver.on_packet(&TARGET, &echo_reply(ID, 999, &[]), 5);
    assert_eq!(receiver.replies(), &vec![accepted(999, 5, 0)]);
}

#[test]
fn skipped_packets_change_nothing() {
    let mut receiver = ReceiverTask::new(TARGET, ID, 4, SECOND);
    assert_eq!(receiver.on_packet(&OTHER, &echo_reply(ID, 0, &[]), 1), Verdict::Foreign);
    assert_eq!(receiver.on_packet(&OTHER, &[3, 0, 0, 0], 1), Verdict::Foreign);
    assert_eq!(receiver.on_packet(&TARGET, &[0, 0, 0], 2), Verdict::Malformed);
    let mut broken = echo_reply(ID, 0, &[4, 4]);
    broken[9] = 5;
    assert_eq!(receiver.on_packet(&TARGET, &broken, 3), Verdict::BadChecksum);
    assert_eq!(
        receiver.on_packet(&TARGET, &echo_reply(ID + 1, 0, &[]), 4),
        Verdict::WrongIdentifier
    );
    assert!(receiver.replies().is_empty());
    assert!(!receiver.is_stopped());
    assert!(receiver.awaits_handoff());
    assert_eq!(receiver.next_wait(None, 5), ReceiverAction::Wait(SECOND));
}

#[test]
fn another_message_from_the_target_ends_the_collection() {
    let mut receiver = ReceiverTask::new(TARGET, ID, 4, SECOND);
    receiver.on_packet(&TARGET, &echo_reply(ID, 0, &[]), 1);
    assert_eq!(receiver.on_packet(&TARGET, &[3, 1, 0, 0, 0, 0, 0, 0], 2), Verdict::Terminal);
    assert!(receiver.is_stopped());
    assert_eq!(receiver.next_wait(None, 3), ReceiverAction::Stop);
    // Nothing is taken once the collection is over.
    receiver.on_packet(&TARGET, &echo_reply(ID, 1, &[]), 4);
    assert_eq!(receiver.into_replies(), vec![accepted(0, 1, 0)]);
}

#[test]
fn a_channel_error_ends_the_collection_and_keeps_the_replies() {
    let mut receiver = ReceiverTask::new(TARGET, ID, 4, SECOND);
    receiver.on_packet(&TARGET, &echo_reply(ID, 2, &[9]), 1);
    receiver.on_channel_error();
    assert!(receiver.is_stopped());
    assert!(!receiver.awaits_handoff());
    assert_eq!(receiver.next_wait(Some(100), 3), ReceiverAction::Stop);
    assert_eq!(receiver.into_replies(), vec![accepted(2, 1, 1)]);
}

#[test]
fn duplicates_count_towards_the_quota() {
    let mut receiver = ReceiverTask::new(TARGET, ID, 2, SECOND);
    receiver.on_packet(&TARGET, &echo_reply(ID, 0, &[]), 1);
    receiver.on_packet(&TARGET, &echo_reply(ID, 0, &[]), 2);
    // The log is full: a third reply is judged but not taken.
    assert_eq!(
        receiver.on_packet(&TARGET, &echo_reply(ID, 1, &[]), 3),
        Verdict::Accepted { sequence: 1, payload_size: 0 }
    );
    assert_eq!(receiver.next_wait(None, 4), ReceiverAction::Stop);
    assert_eq!(receiver.into_replies(), vec![accepted(0, 1, 0), accepted(0, 2, 0)]);
}

#[test]
fn receiver_keeps_its_identifier() {
    assert_eq!(ReceiverTask::new(TARGET, ID, 1, SECOND).identifier(), ID);
}
