//! The wire format of ICMP echo messages.
//!
//! An echo message is a header of eight bytes and a payload: type, code,
//! checksum (two bytes), identifier (two bytes), sequence number (two bytes),
//! every 16-bit field most significant byte first.

use crate::address::{Address, IpVersion};
use crate::checksum::{checksum, internet_checksum, lemma_checksum_ignores_skipped};
use crate::entropy::random_payload;
use vstd::prelude::*;

verus! {

/// Length of the echo header.
pub const ECHO_HEADER_LEN: usize = 8;

/// The longest ICMP message that an IP datagram can carry.
pub const MAX_MESSAGE_LEN: usize = 65_535;

/// The longest payload of an echo message.
pub const MAX_PAYLOAD_LEN: usize = 65_527;

/// Word offset of the checksum field in the message.
pub const CHECKSUM_WORD: usize = 1;

/// The ICMP type of an echo request.
pub open spec fn spec_echo_request_type(version: IpVersion) -> u8 {
    match version {
        IpVersion::V4 => 8,
        IpVersion::V6 => 128,
    }
}

/// The ICMP type of an echo reply.
pub open spec fn spec_echo_reply_type(version: IpVersion) -> u8 {
    match version {
        IpVersion::V4 => 0,
        IpVersion::V6 => 129,
    }
}

/// The ICMP type of an echo request.
#[verifier::when_used_as_spec(spec_echo_request_type)]
pub fn echo_request_type(version: IpVersion) -> (kind: u8)
    ensures
        kind == spec_echo_request_type(version),
{
    match version {
        IpVersion::V4 => 8,
        IpVersion::V6 => 128,
    }
}

/// The ICMP type of an echo reply.
#[verifier::when_used_as_spec(spec_echo_reply_type)]
pub fn echo_reply_type(version: IpVersion) -> (kind: u8)
    ensures
        kind == spec_echo_reply_type(version),
{
    match version {
        IpVersion::V4 => 0,
        IpVersion::V6 => 129,
    }
}

/// The more significant byte of a 16-bit field.
pub open spec fn high_byte(value: u16) -> u8 {
    (value / 256) as u8
}

/// The less significant byte of a 16-bit field.
pub open spec fn low_byte(value: u16) -> u8 {
    (value % 256) as u8
}

/// The 16-bit field that starts at byte `at`.
pub open spec fn field_at(message: Seq<u8>, at: int) -> u16 {
    (message[at] * 256 + message[at + 1]) as u16
}

/// An echo message with the given fields, code zero.
pub open spec fn echo_message(
    kind: u8,
    checksum: u16,
    identifier: u16,
    sequence: u16,
    payload: Seq<u8>,
) -> Seq<u8> {
    seq![
        kind,
        0u8,
        high_byte(checksum),
        low_byte(checksum),
        high_byte(identifier),
        low_byte(identifier),
        high_byte(sequence),
        low_byte(sequence),
    ] + payload
}

/// An echo message whose checksum field holds the checksum of the message.
pub open spec fn sealed_echo_message(kind: u8, identifier: u16, sequence: u16, payload: Seq<u8>) -> Seq<
    u8,
> {
    echo_message(
        kind,
        internet_checksum(echo_message(kind, 0, identifier, sequence, payload), CHECKSUM_WORD as int),
        identifier,
        sequence,
        payload,
    )
}

/// The bytes of an echo request.
pub open spec fn echo_request_bytes(
    version: IpVersion,
    identifier: u16,
    sequence: u16,
    payload: Seq<u8>,
) -> Seq<u8> {
    sealed_echo_message(spec_echo_request_type(version), identifier, sequence, payload)
}

/// Whether the checksum field of a message holds the checksum of the message.
pub open spec fn checksum_holds(message: Seq<u8>) -> bool {
    field_at(message, 2) == internet_checksum(message, CHECKSUM_WORD as int)
}

/// Builds the echo request of the given version with the given identifier,
/// sequence number and payload, checksum filled in.
pub fn build_echo_request(version: IpVersion, identifier: u16, sequence: u16, payload: &[u8]) -> (packet:
    Vec<u8>)
    requires
        payload@.len() <= MAX_PAYLOAD_LEN,
    ensures
        packet@ == echo_request_bytes(version, identifier, sequence, payload@),
        packet@.len() == ECHO_HEADER_LEN + payload@.len(),
{
    let kind = echo_request_type(version);
    let mut packet: Vec<u8> = Vec::new();
    packet.push(kind);
    packet.push(0);
    packet.push(0);
    packet.push(0);
    packet.push((identifier / 256) as u8);
    packet.push((identifier % 256) as u8);
    packet.push((sequence / 256) as u8);
    packet.push((sequence % 256) as u8);
    let mut at: usize = 0;
    while at < payload.len()
        invariant
            at <= payload@.len(),
            packet@.len() == ECHO_HEADER_LEN + at,
            packet@ == echo_message(kind, 0, identifier, sequence, payload@.take(at as int)),
        decreases payload@.len() - at,
    {
        packet.push(payload[at]);
        at += 1;
        assert(packet@ =~= echo_message(kind, 0, identifier, sequence, payload@.take(at as int)));
    }
    assert(payload@.take(at as int) =~= payload@);
    let sum = checksum(packet.as_slice(), CHECKSUM_WORD);
    packet.set(2, (sum / 256) as u8);
    packet.set(3, (sum % 256) as u8);
    assert(packet@ =~= echo_request_bytes(version, identifier, sequence, payload@));
    packet
}

/// Builds an echo request with a payload of `payload_size` random bytes.
/// There is no such request when the payload is longer than
/// [`MAX_PAYLOAD_LEN`].
pub fn new_echo_request(version: IpVersion, identifier: u16, sequence: u16, payload_size: usize) -> (packet:
    Option<Vec<u8>>)
    ensures
        packet is Some <==> payload_size <= MAX_PAYLOAD_LEN,
        packet matches Some(bytes) ==> exists|payload: Seq<u8>|
            payload.len() == payload_size && bytes@ == #[trigger] echo_request_bytes(
                version,
                identifier,
                sequence,
                payload,
            ),
{
    if payload_size > MAX_PAYLOAD_LEN {
        return None;
    }
    let payload = random_payload(payload_size);
    let packet = build_echo_request(version, identifier, sequence, payload.as_slice());
    Some(packet)
}

/// A received message that is long enough to hold an echo header and short
/// enough to have been carried by an IP datagram.
pub struct EchoReply<'a> {
    raw: &'a [u8],
}

impl<'a> EchoReply<'a> {
    #[verifier::type_invariant]
    spec fn well_formed(self) -> bool {
        ECHO_HEADER_LEN <= self.raw@.len() <= MAX_MESSAGE_LEN
    }

    /// The bytes of the message.
    pub closed spec fn bytes(self) -> Seq<u8> {
        self.raw@
    }

    /// The ICMP type.
    pub fn icmp_type(&self) -> (kind: u8)
        ensures
            kind == self.bytes()[0],
    {
        proof {
            use_type_invariant(self);
        }
        self.raw[0]
    }

    /// The ICMP code.
    pub fn icmp_code(&self) -> (code: u8)
        ensures
            code == self.bytes()[1],
    {
        proof {
            use_type_invariant(self);
        }
        self.raw[1]
    }

    /// The content of the checksum field.
    pub fn stored_checksum(&self) -> (sum: u16)
        ensures
            sum == field_at(self.bytes(), 2),
    {
        proof {
            use_type_invariant(self);
        }
        self.raw[2] as u16 * 256 + self.raw[3] as u16
    }

    /// The identifier.
    pub fn identifier(&self) -> (identifier: u16)
        ensures
            identifier == field_at(self.bytes(), 4),
    {
        proof {
            use_type_invariant(self);
        }
        self.raw[4] as u16 * 256 + self.raw[5] as u16
    }

    /// The sequence number.
    pub fn sequence(&self) -> (sequence: u16)
        ensures
            sequence == field_at(self.bytes(), 6),
    {
        proof {
            use_type_invariant(self);
        }
        self.raw[6] as u16 * 256 + self.raw[7] as u16
    }

    /// Number of bytes behind the header.
    pub fn payload_len(&self) -> (len: usize)
        ensures
            len == self.bytes().len() - ECHO_HEADER_LEN,
    {
        proof {
            use_type_invariant(self);
        }
        self.raw.len() - ECHO_HEADER_LEN
    }
}

/// Reads `raw` as an echo message. There is none when `raw` is shorter than an
/// echo header or longer than any ICMP message.
pub fn parse_echo_reply<'a>(raw: &'a [u8]) -> (reply: Option<EchoReply<'a>>)
    ensures
        reply is Some <==> ECHO_HEADER_LEN <= raw@.len() <= MAX_MESSAGE_LEN,
        reply matches Some(view) ==> view.bytes() == raw@,
{
    if raw.len() < ECHO_HEADER_LEN || raw.len() > MAX_MESSAGE_LEN {
        None
    } else {
        Some(EchoReply { raw })
    }
}

/// Whether the checksum that the message carries is the checksum of the
/// message.
pub fn validate_reply(reply: &EchoReply) -> (valid: bool)
    ensures
        valid == checksum_holds(reply.bytes()),
{
    proof {
        use_type_invariant(reply);
    }
    reply.stored_checksum() == checksum(reply.raw, CHECKSUM_WORD)
}

/// What the receiver makes of one inbound packet.
#[derive(Debug, Clone, Copy, PartialEq, Eq, Structural)]
pub enum Verdict {
    /// The packet does not come from the target: skipped.
    Foreign,
    /// The target sent something other than an echo reply: the receiver
    /// stops.
    Terminal,
    /// The packet is no echo message: skipped.
    Malformed,
    /// The checksum does not hold: skipped.
    BadChecksum,
    /// The reply belongs to another sender's probes: skipped.
    WrongIdentifier,
    /// A reply to one of this volley's probes.
    Accepted { sequence: u16, payload_size: usize },
}

/// The verdict on a packet `raw` received from `source` during a volley
/// towards `target` whose probes carry `identifier`. The tests apply in this
/// order: the source, the ICMP type, the length, the checksum, the
/// identifier.
pub open spec fn spec_classify(target: Address, identifier: u16, source: Address, raw: Seq<u8>) -> Verdict {
    if source != target {
        Verdict::Foreign
    } else if raw.len() == 0 {
        Verdict::Malformed
    } else if raw[0] != spec_echo_reply_type(target.spec_version()) {
        Verdict::Terminal
    } else if raw.len() < ECHO_HEADER_LEN || raw.len() > MAX_MESSAGE_LEN {
        Verdict::Malformed
    } else if !checksum_holds(raw) {
        Verdict::BadChecksum
    } else if field_at(raw, 4) != identifier {
        Verdict::WrongIdentifier
    } else {
        Verdict::Accepted {
            sequence: field_at(raw, 6),
            payload_size: (raw.len() - ECHO_HEADER_LEN) as usize,
        }
    }
}

/// Judges one inbound packet.
pub fn classify(target: &Address, identifier: u16, source: &Address, raw: &[u8]) -> (verdict: Verdict)
    ensures
        verdict == spec_classify(*target, identifier, *source, raw@),
{
    if *source != *target {
        return Verdict::Foreign;
    }
    if raw.len() == 0 {
        return Verdict::Malformed;
    }
    if raw[0] != echo_reply_type(target.version()) {
        return Verdict::Terminal;
    }
    let reply = match parse_echo_reply(raw) {
        Some(reply) => reply,
        None => {
            return Verdict::Malformed;
        },
    };
    if !validate_reply(&reply) {
        return Verdict::BadChecksum;
    }
    if reply.identifier() != identifier {
        return Verdict::WrongIdentifier;
    }
    Verdict::Accepted { sequence: reply.sequence(), payload_size: reply.payload_len() }
}

/// Splitting a 16-bit field into two bytes and reading it back gives the
/// field.
pub proof fn lemma_field_round_trip(value: u16)
    ensures
        (high_byte(value) * 256 + low_byte(value)) as u16 == value,
{
}

/// The checksum of a sealed message holds, and its fields read back as they
/// were written.
pub proof fn lemma_sealed_message_reads_back(kind: u8, identifier: u16, sequence: u16, payload: Seq<u8>)
    ensures
        ({
            let message = sealed_echo_message(kind, identifier, sequence, payload);
            &&& message.len() == ECHO_HEADER_LEN + payload.len()
            &&& message[0] == kind
            &&& message[1] == 0
            &&& checksum_holds(message)
            &&& field_at(message, 4) == identifier
            &&& field_at(message, 6) == sequence
            &&& message.skip(ECHO_HEADER_LEN as int) == payload
        }),
{
    let blank = echo_message(kind, 0, identifier, sequence, payload);
    let message = sealed_echo_message(kind, identifier, sequence, payload);
    lemma_checksum_ignores_skipped(blank, message, CHECKSUM_WORD as int);
    lemma_field_round_trip(internet_checksum(blank, CHECKSUM_WORD as int));
    lemma_field_round_trip(identifier);
    lemma_field_round_trip(sequence);
    assert(message.skip(ECHO_HEADER_LEN as int) =~= payload);
}

/// An echo reply from the target that carries the volley's identifier and a
/// checksum that holds is accepted, with its sequence number and the length of
/// its payload.
pub proof fn lemma_genuine_reply_accepted(
    target: Address,
    identifier: u16,
    sequence: u16,
    payload: Seq<u8>,
)
    requires
        payload.len() <= MAX_PAYLOAD_LEN,
    ensures
        spec_classify(
            target,
            identifier,
            target,
            sealed_echo_message(
                spec_echo_reply_type(target.spec_version()),
                identifier,
                sequence,
                payload,
            ),
        ) == (Verdict::Accepted { sequence, payload_size: payload.len() as usize }),
{
    lemma_sealed_message_reads_back(
        spec_echo_reply_type(target.spec_version()),
        identifier,
        sequence,
        payload,
    );
}

} // verus!
