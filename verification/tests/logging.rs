use rustkrazy_init::logwriter::{
    apply_write, log_path, writer_step, StreamKind, WriterDirective,
};
use rustkrazy_init::messages::Color;
use rustkrazy_init::timestamp::{format_rfc3339_secs, forward_line};
use rustkrazy_init::LOG_SIZE_CAP;

#[test]
fn configured_limits() {
    assert_eq!(LOG_SIZE_CAP, 30_000_000);
    assert_eq!(rustkrazy_init::RESTART_INTERVAL_SECS, 30);
}

#[test]
fn timestamp_epoch() {
    assert_eq!(format_rfc3339_secs(0), "1970-01-01T00:00:00Z");
}

#[test]
fn timestamp_recent() {
    assert_eq!(format_rfc3339_secs(1_518_563_312), "2018-02-13T23:08:32Z");
}

#[test]
fn timestamp_last_representable_second() {
    assert_eq!(format_rfc3339_secs(253_402_300_799), "9999-12-31T23:59:59Z");
}

#[test]
fn forwarded_line_format() {
    let s = forward_line(1_518_563_312, "hello", "world\n");
    assert_eq!(s, "[2018-02-13T23:08:32Z hello] world\n");
}

// Every forwarded line matches `[dddd-dd-ddTdd:dd:ddZ <service>] `.
#[test]
fn forwarded_line_shape() {
    let s = forward_line(0, "svc", "x\n");
    let b = s.as_bytes();
    assert_eq!(b[0], b'[');
    for (i, c) in b[1..21].iter().enumerate() {
        match i {
            4 | 7 => assert_eq!(*c, b'-'),
            10 => assert_eq!(*c, b'T'),
            13 | 16 => assert_eq!(*c, b':'),
            19 => assert_eq!(*c, b'Z'),
            _ => assert!(c.is_ascii_digit()),
        }
    }
    assert_eq!(&s[21..], " svc] x\n");
}

#[test]
fn log_paths() {
    assert_eq!(log_path("hello", StreamKind::Stdout), "/tmp/hello.log");
    assert_eq!(log_path("hello", StreamKind::Stderr), "/data/hello.err");
}

#[test]
fn writer_closes_at_eof() {
    match writer_step("hello", StreamKind::Stdout, 0, None) {
        WriterDirective::CloseStream(l) => {
            assert_eq!(l.color, Color::Yellow);
            assert_eq!(l.text, "[ INFO  ] hello closed stdout");
        },
        _ => panic!("expected the stream to close"),
    }
    match writer_step("hello", StreamKind::Stderr, 0, None) {
        WriterDirective::CloseStream(l) => {
            assert_eq!(l.text, "[ INFO  ] hello closed stderr");
        },
        _ => panic!("expected the stream to close"),
    }
}

#[test]
fn writer_skips_empty_lines() {
    let empty = String::new();
    assert!(matches!(
        writer_step("hello", StreamKind::Stdout, 0, Some(&empty)),
        WriterDirective::SkipLine
    ));
}

#[test]
fn writer_forwards_lines() {
    let line = String::from("world\n");
    match writer_step("hello", StreamKind::Stdout, 1_518_563_312, Some(&line)) {
        WriterDirective::Emit(e) => {
            assert_eq!(e, "[2018-02-13T23:08:32Z hello] world\n");
        },
        _ => panic!("expected the line to be forwarded"),
    }
}

#[test]
fn rotation_boundary() {
    // At the cap exactly the file is kept; one byte over, it is reset.
    assert_eq!(apply_write(LOG_SIZE_CAP, 5), (false, LOG_SIZE_CAP + 5));
    assert_eq!(apply_write(LOG_SIZE_CAP + 1, 5), (true, 5));
    assert_eq!(apply_write(0, 5), (false, 5));
}

// Log rotation: a service spamming short lines never drives the file past
// the cap plus one line. With one-byte entries the bound is the scenario's
// literal 30,000,001 bytes.
#[test]
fn rotation_keeps_file_bounded() {
    let entry = forward_line(0, "spam", "x\n");
    let entry_len = entry.len() as u64;
    let mut len: u64 = 0;
    for _ in 0..2_100_000u64 {
        let (_, new_len) = apply_write(len, entry_len);
        len = new_len;
        assert!(len <= LOG_SIZE_CAP + entry_len);
    }

    let mut len: u64 = 0;
    for _ in 0..31_000_000u64 {
        let (_, new_len) = apply_write(len, 1);
        len = new_len;
        assert!(len <= 30_000_001);
    }
}
