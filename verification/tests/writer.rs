use cargo_subunit::json_parser::TestEvent;
use cargo_subunit::subunit_writer::{
    encode_packet, packet_for, AttachmentName, Status, SubunitWriter,
};
use chrono::TimeZone;
use subunit::deserialize::Deserializable;
use subunit::types::event::Event;
use subunit::types::teststatus::TestStatus;

/// Byte offset just past the packet that starts at `at`, read from its
/// length field.
fn packet_end(bytes: &[u8], at: usize) -> usize {
    assert_eq!(bytes[at], 0xb3, "packet must start with the signature");
    let first = bytes[at + 3];
    let total = match first >> 6 {
        0 => first as usize,
        1 => ((first as usize & 0x3f) << 8) | bytes[at + 4] as usize,
        2 => {
            ((first as usize & 0x3f) << 16)
                | ((bytes[at + 4] as usize) << 8)
                | bytes[at + 5] as usize
        }
        _ => {
            ((first as usize & 0x3f) << 24)
                | ((bytes[at + 4] as usize) << 16)
                | ((bytes[at + 5] as usize) << 8)
                | bytes[at + 6] as usize
        }
    };
    at + total
}

/// The status bits of the packet that starts at `at`.
fn packet_status(bytes: &[u8], at: usize) -> u16 {
    let flags = ((bytes[at + 1] as u16) << 8) | bytes[at + 2] as u16;
    flags & 0x7
}

/// Bitwise CRC-32 (IEEE, reflected), independent of any crate.
fn crc32_reference(data: &[u8]) -> u32 {
    let mut crc: u32 = 0xffff_ffff;
    for &b in data {
        crc ^= b as u32;
        for _ in 0..8 {
            if crc & 1 != 0 {
                crc = (crc >> 1) ^ 0xedb8_8320;
            } else {
                crc >>= 1;
            }
        }
    }
    !crc
}

#[test]
fn test_write_started_event() {
    let mut writer = SubunitWriter::new(Vec::new());

    writer
        .write_event(&TestEvent::Started {
            name: "my_test".to_string(),
        })
        .unwrap();

    // Just verify that something was written
    assert!(!writer.drain().is_empty());
}

#[test]
fn test_write_passed_event() {
    let mut writer = SubunitWriter::new(Vec::new());

    writer
        .write_event(&TestEvent::Passed {
            name: "my_test".to_string(),
            duration: Some("0.5".to_string()),
        })
        .unwrap();

    assert!(!writer.drain().is_empty());
}

#[test]
fn test_write_failed_event() {
    let mut writer = SubunitWriter::new(Vec::new());

    writer
        .write_event(&TestEvent::Failed {
            name: "my_test".to_string(),
            duration: Some("0.5".to_string()),
            stdout: Some("test output".to_string()),
            stderr: Some("error message".to_string()),
        })
        .unwrap();

    assert!(!writer.drain().is_empty());
}

#[test]
fn test_write_ignored_event() {
    let mut writer = SubunitWriter::new(Vec::new());

    writer
        .write_event(&TestEvent::Ignored {
            name: "my_test".to_string(),
        })
        .unwrap();

    assert!(!writer.drain().is_empty());
}

#[test]
fn test_first_stream_byte_is_signature() {
    let mut writer = SubunitWriter::new(Vec::new());
    writer
        .write_event(&TestEvent::Timeout {
            name: "t".to_string(),
            duration: None,
        })
        .unwrap();
    let out = writer.drain();
    assert!(!out.is_empty());
    assert_eq!(out[0], 0xb3);
}

#[test]
fn test_started_then_passed_in_order() {
    let mut writer = SubunitWriter::new(Vec::new());
    writer
        .write_event(&TestEvent::Started {
            name: "x".to_string(),
        })
        .unwrap();
    writer
        .write_event(&TestEvent::Passed {
            name: "x".to_string(),
            duration: None,
        })
        .unwrap();
    let out = writer.drain();

    let end1 = packet_end(&out, 0);
    let end2 = packet_end(&out, end1);
    assert_eq!(end2, out.len(), "exactly two packets");
    assert_eq!(packet_status(&out, 0), 0x2, "first packet is inprogress");
    assert_eq!(packet_status(&out, end1), 0x3, "second packet is success");

    // both packets carry the test id "x"
    let (evt1, _) = Event::deserialize(&out[..end1]).unwrap();
    let (evt2, _) = Event::deserialize(&out[end1..]).unwrap();
    assert_eq!(evt1.test_id.as_deref(), Some("x"));
    assert_eq!(evt2.test_id.as_deref(), Some("x"));
}

#[test]
fn test_failed_attachment_precedence() {
    let stdout_only = packet_for(&TestEvent::Failed {
        name: "t".to_string(),
        duration: None,
        stdout: Some("o".to_string()),
        stderr: None,
    });
    let att = stdout_only.attachment.expect("stdout must be attached");
    assert_eq!(att.name, AttachmentName::Stdout);
    assert_eq!(att.content, b"o".to_vec());

    let both = packet_for(&TestEvent::Failed {
        name: "t".to_string(),
        duration: None,
        stdout: Some("o".to_string()),
        stderr: Some("e".to_string()),
    });
    let att = both.attachment.expect("stderr must win");
    assert_eq!(att.name, AttachmentName::Stderr);
    assert_eq!(att.content, b"e".to_vec());

    let neither = packet_for(&TestEvent::Failed {
        name: "t".to_string(),
        duration: None,
        stdout: None,
        stderr: None,
    });
    assert!(neither.attachment.is_none());

    let empty_strings = packet_for(&TestEvent::Failed {
        name: "t".to_string(),
        duration: None,
        stdout: Some(String::new()),
        stderr: Some(String::new()),
    });
    assert!(empty_strings.attachment.is_none());
}

#[test]
fn test_timeout_attachment_is_fixed() {
    let p = packet_for(&TestEvent::Timeout {
        name: "t".to_string(),
        duration: Some("99.9".to_string()),
    });
    assert_eq!(p.status, Status::Fail);
    let att = p.attachment.expect("timeout always attaches a reason");
    assert_eq!(att.name, AttachmentName::Reason);
    assert_eq!(att.content, b"Test timed out".to_vec());
}

#[test]
fn test_encode_matches_subunit_crate_simple() {
    let secs: u32 = 1704067200;
    let nanos: u32 = 123456789;
    let mine = encode_packet(
        &packet_for(&TestEvent::Started {
            name: "my_test".to_string(),
        }),
        secs,
        nanos,
    )
    .unwrap();

    let dt = chrono::Utc
        .timestamp_opt(secs as i64, nanos)
        .single()
        .unwrap();
    let theirs = Event::new(TestStatus::InProgress)
        .test_id("my_test")
        .datetime(dt)
        .unwrap()
        .build()
        .to_vec()
        .unwrap();
    assert_eq!(mine, theirs);
}

#[test]
fn test_encode_matches_subunit_crate_with_attachment() {
    let secs: u32 = 1704067200;
    let nanos: u32 = 5;
    let mine = encode_packet(
        &packet_for(&TestEvent::Failed {
            name: "my_test".to_string(),
            duration: None,
            stdout: Some("test output".to_string()),
            stderr: Some("error message".to_string()),
        }),
        secs,
        nanos,
    )
    .unwrap();

    let dt = chrono::Utc.timestamp_opt(secs as i64, nanos).single().unwrap();
    let theirs = Event::new(TestStatus::Failed)
        .test_id("my_test")
        .datetime(dt)
        .unwrap()
        .mime_type("text/plain;charset=utf8")
        .file_content("stderr", b"error message")
        .build()
        .to_vec()
        .unwrap();
    assert_eq!(mine, theirs);
}

#[test]
fn test_packet_checksum_is_crc32() {
    let mine = encode_packet(
        &packet_for(&TestEvent::Ignored {
            name: "my_test".to_string(),
        }),
        7,
        9,
    )
    .unwrap();
    let body = &mine[..mine.len() - 4];
    let expect = crc32_reference(body);
    let stored = u32::from_be_bytes(mine[mine.len() - 4..].try_into().unwrap());
    assert_eq!(stored, expect);
}

#[test]
fn test_encoded_packet_survives_subunit_roundtrip() {
    let mine = encode_packet(
        &packet_for(&TestEvent::Timeout {
            name: "slow_test".to_string(),
            duration: None,
        }),
        42,
        0,
    )
    .unwrap();
    let (evt, used) = Event::deserialize(&mine).unwrap();
    assert_eq!(used, mine.len());
    assert_eq!(evt.status, TestStatus::Failed);
    assert_eq!(evt.test_id.as_deref(), Some("slow_test"));
    assert_eq!(evt.file.mime_type.as_deref(), Some("text/plain;charset=utf8"));
    let (fname, content) = evt.file.file.expect("reason attachment");
    assert_eq!(fname, "reason");
    assert_eq!(content, b"Test timed out".to_vec());
}

#[test]
fn test_encode_long_fields_match_subunit_crate() {
    // a test id longer than 63 bytes and a content beyond 16KiB exercise
    // the wider number encodings for field and packet lengths
    let long_id = "m".repeat(100);
    let big_err = "e".repeat(20000);
    let mine = encode_packet(
        &packet_for(&TestEvent::Failed {
            name: long_id.clone(),
            duration: None,
            stdout: None,
            stderr: Some(big_err.clone()),
        }),
        1,
        2,
    )
    .unwrap();

    let dt = chrono::Utc.timestamp_opt(1, 2).single().unwrap();
    let theirs = Event::new(TestStatus::Failed)
        .test_id(&long_id)
        .datetime(dt)
        .unwrap()
        .mime_type("text/plain;charset=utf8")
        .file_content("stderr", big_err.as_bytes())
        .build()
        .to_vec()
        .unwrap();
    assert_eq!(mine, theirs);
}

#[test]
fn test_encode_rejects_unencodable_nanos() {
    let r = encode_packet(
        &packet_for(&TestEvent::Started {
            name: "x".to_string(),
        }),
        0,
        0x4000_0000,
    );
    assert!(r.is_err());
}

#[test]
fn test_encode_rejects_oversized_packet() {
    // more than the 4MiB packet cap
    let huge = "z".repeat(5 * 1024 * 1024);
    let r = encode_packet(
        &packet_for(&TestEvent::Failed {
            name: "x".to_string(),
            duration: None,
            stdout: None,
            stderr: Some(huge),
        }),
        0,
        0,
    );
    assert!(r.is_err());
}

#[test]
fn test_encode_multibyte_name_uses_utf8_length() {
    // a multibyte id: the length prefix counts bytes, not characters
    let mine = encode_packet(
        &packet_for(&TestEvent::Started {
            name: "héllo_tæst".to_string(),
        }),
        3,
        4,
    )
    .unwrap();
    let dt = chrono::Utc.timestamp_opt(3, 4).single().unwrap();
    let theirs = Event::new(TestStatus::InProgress)
        .test_id("héllo_tæst")
        .datetime(dt)
        .unwrap()
        .build()
        .to_vec()
        .unwrap();
    assert_eq!(mine, theirs);
    let (evt, _) = Event::deserialize(&mine).unwrap();
    assert_eq!(evt.test_id.as_deref(), Some("héllo_tæst"));
}
