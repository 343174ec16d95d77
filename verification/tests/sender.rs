use volley::address::IpVersion;
use volley::aggregate::OutboundRequest;
use volley::codec::{parse_echo_reply, validate_reply, ECHO_HEADER_LEN, MAX_PAYLOAD_LEN};
use volley::sender::{SenderAction, SenderTask};

const MS: u64 = 1_000_000;
const SECOND: u64 = 1_000_000_000;

fn transmit(sender: &mut SenderTask, now: u64) -> Vec<u8> {
    match sender.advance(now) {
        SenderAction::Transmit(packet) => packet,
        other => panic!("expected a probe to transmit, got {:?}", other),
    }
}

fn pause(sender: &mut SenderTask, now: u64) -> u64 {
    match sender.advance(now) {
        SenderAction::Pause(wait) => wait,
        other => panic!("expected a pause, got {:?}", other),
    }
}

fn hand_off(sender: &mut SenderTask, now: u64) -> u64 {
    match sender.advance(now) {
        SenderAction::HandOff(deadline) => deadline,
        other => panic!("expected the hand-off, got {:?}", other),
    }
}

fn logged(sequence: u16, send_timestamp: u64, delivered: bool) -> OutboundRequest {
    OutboundRequest { sequence, send_timestamp, delivered }
}

#[test]
fn first_probe_goes_out_at_the_start() {
    let mut sender = SenderTask::new(IpVersion::V4, 0xABCD, 16, 3, 100, SECOND, 1000);
    assert!(sender.log().is_empty());
    assert!(!sender.is_finished());
    let packet = transmit(&mut sender, 1000);
    assert_eq!(packet.len(), ECHO_HEADER_LEN + 16);
    let view = parse_echo_reply(&packet).unwrap();
    assert_eq!(view.icmp_type(), 8);
    assert_eq!(view.identifier(), 0xABCD);
    assert_eq!(view.sequence(), 0);
    assert!(validate_reply(&view));
    assert_eq!(sender.log(), &vec![logged(0, 1000, false)]);
}

#[test]
fn probes_of_version_six_carry_type_128() {
    let mut sender = SenderTask::new(IpVersion::V6, 1, 0, 1, 0, SECOND, 0);
    let packet = transmit(&mut sender, 0);
    assert_eq!(packet[0], 128);
}

#[test]
fn sender_pauses_only_when_ahead_of_schedule() {
    let mut sender = SenderTask::new(IpVersion::V4, 1, 0, 3, 100, SECOND, 1000);
    transmit(&mut sender, 1000);
    sender.settle(true);
    assert_eq!(pause(&mut sender, 1050), 50);
    // A pause changes nothing: asking again gives what is left of it.
    assert_eq!(pause(&mut sender, 1099), 1);
    let second = transmit(&mut sender, 1100);
    assert_eq!(parse_echo_reply(&second).unwrap().sequence(), 1);
    sender.settle(true);
    // Behind schedule: the third probe was due at 1200 and goes out at once.
    let third = transmit(&mut sender, 1350);
    assert_eq!(parse_echo_reply(&third).unwrap().sequence(), 2);
    sender.settle(false);
    assert_eq!(
        sender.log(),
        &vec![logged(0, 1000, true), logged(1, 1100, true), logged(2, 1350, false)]
    );
}

#[test]
fn drift_does_not_compound() {
    let mut sender = SenderTask::new(IpVersion::V4, 1, 0, 4, 100, SECOND, 1000);
    transmit(&mut sender, 1000);
    sender.settle(true);
    // The second probe is due at 1100 and goes out 90 late.
    transmit(&mut sender, 1190);
    sender.settle(true);
    // The third is still due at 1200, not at 1290.
    assert_eq!(pause(&mut sender, 1195), 5);
    transmit(&mut sender, 1200);
    sender.settle(true);
    assert_eq!(pause(&mut sender, 1200), 100);
}

#[test]
fn hand_off_follows_the_last_probe_without_a_pause() {
    let mut sender = SenderTask::new(IpVersion::V4, 1, 0, 2, 100, SECOND, 1000);
    transmit(&mut sender, 1000);
    sender.settle(true);
    transmit(&mut sender, 1100);
    sender.settle(true);
    assert!(!sender.is_finished());
    assert_eq!(hand_off(&mut sender, 1101), 1101 + SECOND);
    assert!(sender.is_finished());
}

#[test]
fn hand_off_happens_once() {
    let mut sender = SenderTask::new(IpVersion::V4, 1, 0, 1, 100, SECOND, 0);
    transmit(&mut sender, 0);
    sender.settle(true);
    hand_off(&mut sender, 5);
    assert!(matches!(sender.advance(6), SenderAction::Idle));
    assert!(matches!(sender.advance(7 + 10 * SECOND), SenderAction::Idle));
    assert_eq!(sender.log().len(), 1);
}

#[test]
fn volley_of_no_probes_hands_off_at_once() {
    let mut sender = SenderTask::new(IpVersion::V4, 1, 64, 0, 100, SECOND, 1000);
    assert_eq!(hand_off(&mut sender, 1234), 1234 + SECOND);
    assert!(sender.log().is_empty());
}

#[test]
fn on_schedule_deadline_is_count_minus_one_intervals_and_a_timeout() {
    let count = 5;
    let interval = 10 * MS;
    let start = 7_000;
    let mut sender = SenderTask::new(IpVersion::V4, 1, 8, count, interval, SECOND, start);
    let mut now = start;
    let deadline = loop {
        match sender.advance(now) {
            SenderAction::Transmit(_) => sender.settle(true),
            SenderAction::Pause(wait) => now += wait,
            SenderAction::HandOff(deadline) => break deadline,
            other => panic!("unexpected {:?}", other),
        }
    };
    assert_eq!(deadline, start + 4 * interval + SECOND);
    let times: Vec<u64> = sender.log().iter().map(|r| r.send_timestamp).collect();
    assert_eq!(times, vec![start, start + interval, start + 2 * interval, start + 3 * interval, start + 4 * interval]);
}

#[test]
fn settle_marks_the_last_probe_only() {
    let mut sender = SenderTask::new(IpVersion::V4, 1, 0, 3, 0, SECOND, 0);
    transmit(&mut sender, 0);
    sender.settle(true);
    transmit(&mut sender, 1);
    sender.settle(false);
    transmit(&mut sender, 2);
    assert_eq!(sender.log(), &vec![logged(0, 0, true), logged(1, 1, false), logged(2, 2, false)]);
    sender.settle(true);
    assert_eq!(sender.log(), &vec![logged(0, 0, true), logged(1, 1, false), logged(2, 2, true)]);
}

#[test]
fn settle_without_a_probe_changes_nothing() {
    let mut sender = SenderTask::new(IpVersion::V4, 1, 0, 1, 0, SECOND, 0);
    sender.settle(true);
    assert!(sender.log().is_empty());
    transmit(&mut sender, 0);
    hand_off(&mut sender, 1);
    sender.settle(true);
    assert_eq!(sender.log(), &vec![logged(0, 0, false)]);
}

#[test]
fn oversized_payload_cannot_be_sent() {
    let mut sender = SenderTask::new(IpVersion::V4, 1, MAX_PAYLOAD_LEN + 1, 2, 100, SECOND, 0);
    assert!(matches!(sender.advance(0), SenderAction::Unsendable));
    assert_eq!(pause(&mut sender, 40), 60);
    assert!(matches!(sender.advance(100), SenderAction::Unsendable));
    assert_eq!(hand_off(&mut sender, 100), 100 + SECOND);
    assert_eq!(sender.log(), &vec![logged(0, 0, false), logged(1, 100, false)]);
}

#[test]
fn largest_payload_can_be_sent() {
    let mut sender = SenderTask::new(IpVersion::V4, 1, MAX_PAYLOAD_LEN, 1, 0, SECOND, 0);
    assert_eq!(transmit(&mut sender, 0).len(), 65_535);
}

#[test]
fn instants_saturate() {
    let mut sender = SenderTask::new(IpVersion::V4, 1, 0, 2, u64::MAX, u64::MAX, 1000);
    transmit(&mut sender, 1000);
    sender.settle(true);
    // The second probe is due at the end of time.
    assert_eq!(pause(&mut sender, 5000), u64::MAX - 5000);
    transmit(&mut sender, u64::MAX);
    assert_eq!(hand_off(&mut sender, 10), u64::MAX);
}

#[test]
fn wire_sequence_wraps_after_sixteen_bits() {
    let count = 65_538;
    let mut sender = SenderTask::new(IpVersion::V4, 1, 0, count, 0, SECOND, 0);
    let mut last = Vec::new();
    for _ in 0..count {
        last = transmit(&mut sender, 0);
        sender.settle(true);
    }
    assert_eq!(parse_echo_reply(&last).unwrap().sequence(), 1);
    let log = sender.log();
    assert_eq!(log[65_535].sequence, 65_535);
    assert_eq!(log[65_536].sequence, 0);
    assert_eq!(log[65_537].sequence, 1);
    assert_eq!(hand_off(&mut sender, 3), 3 + SECOND);
}

#[test]
fn sender_keeps_its_settings() {
    let sender = SenderTask::new(IpVersion::V4, 0x5A5A, 0, 1, 3, 77, 0);
    assert_eq!(sender.identifier(), 0x5A5A);
    assert_eq!(sender.timeout(), 77);
}

#[test]
fn sequence_numbers_are_dense_and_distinct() {
    let count = 300;
    let mut sender = SenderTask::new(IpVersion::V4, 1, 0, count, 0, SECOND, 0);
    for _ in 0..count {
        transmit(&mut sender, 0);
        sender.settle(true);
    }
    let sequences: Vec<u16> = sender.log().iter().map(|r| r.sequence).collect();
    let expected: Vec<u16> = (0..300).collect();
    assert_eq!(sequences, expected);
}
