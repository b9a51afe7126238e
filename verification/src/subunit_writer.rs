//! Encode typed test events as subunit v2 packets.
//!
//! Each event becomes exactly one packet: a signature byte, a flag word
//! naming the fields present and the test status, the total packet length,
//! the field payloads in canonical order (timestamp, test id, mime type,
//! attachment name and content), and a trailing CRC-32 over everything
//! before it. A failed test attaches its captured stderr, or else its
//! captured stdout; a timed-out test always attaches a fixed reason text.
use vstd::prelude::*;

use crate::json_parser::{EventModel, TestEvent};
use crate::wire::{
    be16,
    be32,
    crc32,
    crc32_of,
    number_bytes,
    push_be16,
    push_be32,
    push_bytes,
    push_number,
    MAX_NUMBER,
};
use vstd::utf8::encode_utf8;

verus! {

/// The status a packet reports for its test.
#[derive(Debug, Clone, Copy, PartialEq, Eq, Structural)]
pub enum Status {
    /// The test has started.
    InProgress,
    /// The test passed.
    Success,
    /// The test failed or timed out.
    Fail,
    /// The test was ignored.
    Skip,
}

/// The name under which a packet's attachment is filed.
#[derive(Debug, Clone, Copy, PartialEq, Eq, Structural)]
pub enum AttachmentName {
    /// Captured standard output of a failed test.
    Stdout,
    /// Captured standard error of a failed test.
    Stderr,
    /// The fixed explanation of a timed-out test.
    Reason,
}

/// A named byte blob carried by a packet. A packet carries at most one.
#[derive(Debug, Clone)]
pub struct Attachment {
    /// The attachment's file name on the wire.
    pub name: AttachmentName,
    /// The attachment's content bytes.
    pub content: Vec<u8>,
}

/// One packet before serialization: a status, the test's name, and at most
/// one attachment. The timestamp is stamped on at encode time.
#[derive(Debug, Clone)]
pub struct Packet {
    /// The reported status.
    pub status: Status,
    /// The test's name, mirrored from the source event.
    pub test_id: String,
    /// The packet's attachment, if any.
    pub attachment: Option<Attachment>,
}

/// The mathematical image of an [`Attachment`].
pub struct AttachmentModel {
    pub name: AttachmentName,
    pub content: Seq<u8>,
}

/// The mathematical image of a [`Packet`].
pub struct PacketModel {
    pub status: Status,
    pub test_id: Seq<char>,
    pub attachment: Option<AttachmentModel>,
}

impl View for Attachment {
    type V = AttachmentModel;

    open spec fn view(&self) -> AttachmentModel {
        AttachmentModel { name: self.name, content: self.content@ }
    }
}

impl View for Packet {
    type V = PacketModel;

    open spec fn view(&self) -> PacketModel {
        PacketModel {
            status: self.status,
            test_id: self.test_id@,
            attachment: match self.attachment {
                Some(a) => Some(a@),
                None => None,
            },
        }
    }
}

/// The attachment of a failure packet: the captured stderr when it is
/// non-empty, else the captured stdout when it is non-empty, else nothing.
/// The wire format allows one attachment per packet, and stderr is the more
/// diagnostic of the two for a failure, so stderr overrides stdout.
pub open spec fn att_for_failed(
    stdout: Option<Seq<char>>,
    stderr: Option<Seq<char>>,
) -> Option<AttachmentModel> {
    if stderr is Some && stderr->0.len() > 0 {
        Some(AttachmentModel { name: AttachmentName::Stderr, content: encode_utf8(stderr->0) })
    } else if stdout is Some && stdout->0.len() > 0 {
        Some(AttachmentModel { name: AttachmentName::Stdout, content: encode_utf8(stdout->0) })
    } else {
        None
    }
}

/// The packet each event maps to: its status, the event's name as test id,
/// and the attachment policy for failures and timeouts.
pub open spec fn spec_packet_for(e: EventModel) -> PacketModel {
    match e {
        EventModel::Started { name } => PacketModel {
            status: Status::InProgress,
            test_id: name,
            attachment: None,
        },
        EventModel::Passed { name, duration } => PacketModel {
            status: Status::Success,
            test_id: name,
            attachment: None,
        },
        EventModel::Failed { name, duration, stdout, stderr } => PacketModel {
            status: Status::Fail,
            test_id: name,
            attachment: att_for_failed(stdout, stderr),
        },
        EventModel::Ignored { name } => PacketModel {
            status: Status::Skip,
            test_id: name,
            attachment: None,
        },
        EventModel::Timeout { name, duration } => PacketModel {
            status: Status::Fail,
            test_id: name,
            attachment: Some(
                AttachmentModel {
                    name: AttachmentName::Reason,
                    content: encode_utf8("Test timed out"@),
                },
            ),
        },
    }
}

/// Build the packet for one event.
pub fn packet_for(event: &TestEvent) -> (p: Packet)
    ensures
        p@ == spec_packet_for(event@),
{
    match event {
        TestEvent::Started { name } => Packet {
            status: Status::InProgress,
            test_id: name.as_str().to_owned(),
            attachment: None,
        },
        TestEvent::Passed { name, duration } => Packet {
            status: Status::Success,
            test_id: name.as_str().to_owned(),
            attachment: None,
        },
        TestEvent::Failed { name, duration, stdout, stderr } => {
            let attachment: Option<Attachment> = if stderr.is_some() && !stderr.as_ref().unwrap().as_str().is_empty() {
                Some(
                    Attachment {
                        name: AttachmentName::Stderr,
                        content: stderr.as_ref().unwrap().as_str().as_bytes_vec(),
                    },
                )
            } else if stdout.is_some() && !stdout.as_ref().unwrap().as_str().is_empty() {
                Some(
                    Attachment {
                        name: AttachmentName::Stdout,
                        content: stdout.as_ref().unwrap().as_str().as_bytes_vec(),
                    },
                )
            } else {
                None
            };
            Packet { status: Status::Fail, test_id: name.as_str().to_owned(), attachment }
        },
        TestEvent::Ignored { name } => Packet {
            status: Status::Skip,
            test_id: name.as_str().to_owned(),
            attachment: None,
        },
        TestEvent::Timeout { name, duration } => Packet {
            status: Status::Fail,
            test_id: name.as_str().to_owned(),
            attachment: Some(
                Attachment {
                    name: AttachmentName::Reason,
                    content: "Test timed out".as_bytes_vec(),
                },
            ),
        },
    }
}

/// The status bits carried in the low bits of the flag word.
pub open spec fn status_code(s: Status) -> u16 {
    match s {
        Status::InProgress => 2,
        Status::Success => 3,
        Status::Fail => 6,
        Status::Skip => 5,
    }
}

/// The mime type every attachment is sent with.
pub open spec fn mime_bytes() -> Seq<u8> {
    encode_utf8("text/plain;charset=utf8"@)
}

/// The wire name of an attachment.
pub open spec fn att_name_chars(n: AttachmentName) -> Seq<char> {
    match n {
        AttachmentName::Stdout => "stdout"@,
        AttachmentName::Stderr => "stderr"@,
        AttachmentName::Reason => "reason"@,
    }
}

/// The packet's flag word: version 2 in the top nibble, then one bit for
/// each field present (timestamp 0x0200 and test id 0x0800 always; mime
/// type 0x0020 and file content 0x0040 with an attachment), and the status
/// bits.
pub open spec fn flags_of(p: PacketModel) -> u16 {
    if p.attachment is Some {
        (0x2a60 + status_code(p.status)) as u16
    } else {
        (0x2a00 + status_code(p.status)) as u16
    }
}

/// The payload of an attachment: the mime type, the attachment's name and
/// its content, each length-prefixed.
pub open spec fn att_bytes(a: AttachmentModel) -> Seq<u8> {
    number_bytes(mime_bytes().len() as u32) + mime_bytes() + number_bytes(
        encode_utf8(att_name_chars(a.name)).len() as u32,
    ) + encode_utf8(att_name_chars(a.name)) + number_bytes(a.content.len() as u32) + a.content
}

/// The field payloads of a packet, in canonical order: the timestamp as
/// whole seconds and a nanosecond remainder, the length-prefixed test id,
/// and the attachment fields when present.
pub open spec fn payload_bytes(p: PacketModel, secs: u32, nanos: u32) -> Seq<u8> {
    be32(secs) + number_bytes(nanos) + number_bytes(encode_utf8(p.test_id).len() as u32)
        + encode_utf8(p.test_id) + (match p.attachment {
        Some(a) => att_bytes(a),
        None => Seq::empty(),
    })
}

/// The packet's byte count outside the length field itself: signature and
/// flags, the payloads, and the checksum.
pub open spec fn base_len(p: PacketModel, secs: u32, nanos: u32) -> nat {
    3 + payload_bytes(p, secs, nanos).len() + 4
}

/// The total length written into the length field: the length field itself
/// takes one, two or three bytes, decided by the total it brings about.
pub open spec fn total_len(base: nat) -> nat {
    if base <= 62 {
        base + 1
    } else if base <= 16381 {
        base + 2
    } else {
        base + 3
    }
}

/// Whether a packet can be encoded at all: each length-prefixed field must
/// fit the wire number encoding, and the whole packet is capped at 4MiB.
pub open spec fn encodable(p: PacketModel, secs: u32, nanos: u32) -> bool {
    &&& nanos <= MAX_NUMBER
    &&& encode_utf8(p.test_id).len() <= MAX_NUMBER
    &&& (p.attachment matches Some(a) ==> {
        &&& mime_bytes().len() <= MAX_NUMBER
        &&& encode_utf8(att_name_chars(a.name)).len() <= MAX_NUMBER
        &&& a.content.len() <= MAX_NUMBER
    })
    &&& base_len(p, secs, nanos) <= 4194300
}

/// The full wire form of a packet stamped with the given time: signature,
/// flags, total length, payloads, and the CRC-32 of all of that.
pub open spec fn packet_bytes(p: PacketModel, secs: u32, nanos: u32) -> Seq<u8> {
    let body = seq![0xb3u8] + be16(flags_of(p)) + number_bytes(
        total_len(base_len(p, secs, nanos)) as u32,
    ) + payload_bytes(p, secs, nanos);
    body + be32(crc32_of(body))
}

/// Law: every packet is non-empty and begins with the signature byte 0xb3.
pub proof fn lemma_packet_signature(p: PacketModel, secs: u32, nanos: u32)
    ensures
        packet_bytes(p, secs, nanos).len() > 0,
        packet_bytes(p, secs, nanos)[0] == 0xb3,
{
}

/// Law: a failure packet attaches the captured stderr when it is
/// non-empty, else the captured stdout when it is non-empty, else nothing;
/// never both, and the duration never reaches the packet.
pub proof fn lemma_failed_attachment(
    name: Seq<char>,
    duration: Option<Seq<char>>,
    stdout: Option<Seq<char>>,
    stderr: Option<Seq<char>>,
)
    ensures
        ({
            let p = spec_packet_for(EventModel::Failed { name, duration, stdout, stderr });
            &&& p.status == Status::Fail
            &&& p.test_id == name
            &&& (stderr is Some && stderr->0.len() > 0 ==> p.attachment == Some(
                AttachmentModel { name: AttachmentName::Stderr, content: encode_utf8(stderr->0) },
            ))
            &&& (!(stderr is Some && stderr->0.len() > 0) && stdout is Some && stdout->0.len() > 0
                ==> p.attachment == Some(
                AttachmentModel { name: AttachmentName::Stdout, content: encode_utf8(stdout->0) },
            ))
            &&& (!(stderr is Some && stderr->0.len() > 0) && !(stdout is Some && stdout->0.len()
                > 0) ==> p.attachment is None)
        }),
{
}

/// Law: a timeout packet always reports a failure and attaches exactly the
/// fixed reason text, whatever the event's other fields hold.
pub proof fn lemma_timeout_attachment(name: Seq<char>, duration: Option<Seq<char>>)
    ensures
        spec_packet_for(EventModel::Timeout { name, duration }) == (PacketModel {
            status: Status::Fail,
            test_id: name,
            attachment: Some(
                AttachmentModel {
                    name: AttachmentName::Reason,
                    content: encode_utf8("Test timed out"@),
                },
            ),
        }),
{
}

/// Why a packet could not be encoded or written.
#[derive(Debug, Clone, Copy, PartialEq, Eq, Structural)]
pub enum EncodeError {
    /// A field or the whole packet exceeds what the wire format can carry.
    TooLarge,
    /// The wall clock reports a time outside the representable range.
    InvalidTimestamp,
}

/// Serialize one packet stamped with the given time.
#[verifier::rlimit(100)]
pub fn encode_packet(p: &Packet, secs: u32, nanos: u32) -> (r: Result<Vec<u8>, EncodeError>)
    ensures
        r matches Ok(v) ==> encodable(p@, secs, nanos) && v@ == packet_bytes(p@, secs, nanos),
        r is Err ==> !encodable(p@, secs, nanos),
        r matches Err(e) ==> e == EncodeError::TooLarge,
{
    if nanos > MAX_NUMBER {
        return Err(EncodeError::TooLarge);
    }
    let id_bytes = p.test_id.as_str().as_bytes_vec();
    if id_bytes.len() > MAX_NUMBER as usize {
        return Err(EncodeError::TooLarge);
    }
    let mut payload: Vec<u8> = Vec::new();
    push_be32(&mut payload, secs);
    push_number(&mut payload, nanos);
    push_number(&mut payload, id_bytes.len() as u32);
    push_bytes(&mut payload, &id_bytes);
    match &p.attachment {
        Some(a) => {
            let mime_v = "text/plain;charset=utf8".as_bytes_vec();
            if mime_v.len() > MAX_NUMBER as usize {
                return Err(EncodeError::TooLarge);
            }
            let name_v = match a.name {
                AttachmentName::Stdout => "stdout",
                AttachmentName::Stderr => "stderr",
                AttachmentName::Reason => "reason",
            }.as_bytes_vec();
            if name_v.len() > MAX_NUMBER as usize {
                return Err(EncodeError::TooLarge);
            }
            if a.content.len() > MAX_NUMBER as usize {
                return Err(EncodeError::TooLarge);
            }
            push_number(&mut payload, mime_v.len() as u32);
            push_bytes(&mut payload, &mime_v);
            push_number(&mut payload, name_v.len() as u32);
            push_bytes(&mut payload, &name_v);
            push_number(&mut payload, a.content.len() as u32);
            push_bytes(&mut payload, &a.content);
            proof {
                assert(payload@ =~= payload_bytes(p@, secs, nanos));
            }
        },
        None => {
            proof {
                assert(payload@ =~= payload_bytes(p@, secs, nanos));
            }
        },
    }
    let base: u64 = payload.len() as u64 + 7;
    if base > 4194300 {
        return Err(EncodeError::TooLarge);
    }
    let total: u64 = if base <= 62 {
        base + 1
    } else if base <= 16381 {
        base + 2
    } else {
        base + 3
    };
    let code: u16 = match p.status {
        Status::InProgress => 2,
        Status::Success => 3,
        Status::Fail => 6,
        Status::Skip => 5,
    };
    let flags: u16 = if p.attachment.is_some() {
        0x2a60 + code
    } else {
        0x2a00 + code
    };
    let mut out: Vec<u8> = Vec::new();
    out.push(0xb3);
    push_be16(&mut out, flags);
    push_number(&mut out, total as u32);
    push_bytes(&mut out, &payload);
    proof {
        assert(out@ =~= seq![0xb3u8] + be16(flags_of(p@)) + number_bytes(
            total_len(base_len(p@, secs, nanos)) as u32,
        ) + payload_bytes(p@, secs, nanos));
    }
    let checksum = crc32(&out);
    push_be32(&mut out, checksum);
    proof {
        assert(out@ =~= packet_bytes(p@, secs, nanos));
    }
    Ok(out)
}

/// Relies on chrono's Utc::now, DateTime::timestamp and
/// DateTime::timestamp_subsec_nanos: the current wall-clock time as whole
/// seconds since the Unix epoch and the nanosecond remainder. Nothing is
/// assumed of the values: the clock may say anything.
#[verifier::external_body]
fn now_parts() -> (r: (i64, u32)) {
    let now = chrono::Utc::now();
    (now.timestamp(), now.timestamp_subsec_nanos())
}

/// The encoder: owns the run's output sink, a growing byte buffer that the
/// caller drains after each event to hand the fresh packet on, flushed, in
/// real time.
pub struct SubunitWriter {
    output: Vec<u8>,
}

impl View for SubunitWriter {
    type V = Seq<u8>;

    closed spec fn view(&self) -> Seq<u8> {
        self.output@
    }
}

impl SubunitWriter {
    /// Create a writer over the given sink bytes.
    pub fn new(output: Vec<u8>) -> (w: SubunitWriter)
        ensures
            w@ == output@,
    {
        SubunitWriter { output }
    }

    /// Encode one event as one packet, stamped with the wall-clock time of
    /// this call, and append it to the sink. On success the sink has grown
    /// by exactly one well-formed packet, whose first byte is the signature
    /// 0xb3; on failure the sink is unchanged.
    pub fn write_event(&mut self, event: &TestEvent) -> (r: Result<(), EncodeError>)
        ensures
            r is Ok ==> exists|secs: u32, nanos: u32|
                encodable(spec_packet_for(event@), secs, nanos) && final(self)@ == old(self)@
                    + packet_bytes(spec_packet_for(event@), secs, nanos),
            r is Ok ==> final(self)@.len() > old(self)@.len() && final(self)@[old(
                self,
            )@.len() as int] == 0xb3,
            r is Err ==> final(self)@ == old(self)@,
    {
        let p = packet_for(event);
        let (secs64, nanos) = now_parts();
        if secs64 < 0 || secs64 > 0xffffffffi64 {
            return Err(EncodeError::InvalidTimestamp);
        }
        let secs = secs64 as u32;
        match encode_packet(&p, secs, nanos) {
            Ok(mut bytes) => {
                proof {
                    lemma_packet_signature(p@, secs, nanos);
                }
                self.output.append(&mut bytes);
                Ok(())
            },
            Err(e) => Err(e),
        }
    }

    /// Take the bytes written so far out of the sink, leaving it empty.
    pub fn drain(&mut self) -> (r: Vec<u8>)
        ensures
            r@ == old(self)@,
            final(self)@ == Seq::<u8>::empty(),
    {
        let mut tmp: Vec<u8> = Vec::new();
        core::mem::swap(&mut tmp, &mut self.output);
        tmp
    }
}

} // verus!

