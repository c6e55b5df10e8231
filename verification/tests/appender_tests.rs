use std::sync::mpsc::sync_channel;
use syslog_net::consts::Level;
use syslog_net::plain;
use syslog_net::wire::truncate_payload;
use syslog_net::{MessageFormat, SyslogAppenderBuilder, DEFAULT_MAX_LEN};

#[test]
fn append_delivers_plain_payload_unchanged() {
    let (tx, rx) = sync_channel(12);
    let appender = SyslogAppenderBuilder::new().build(tx);
    assert!(appender.append(Level::Error, "hello").is_ok());
    let got = rx.recv().unwrap();
    assert_eq!(got, b"<11> hello\n".to_vec());
}

#[test]
fn append_truncates_payload_to_max_len() {
    let (tx, rx) = sync_channel(12);
    let body = "a".repeat(3000);
    let appender = SyslogAppenderBuilder::new().max_len(2048).build(tx);
    assert!(appender.append(Level::Error, &body).is_ok());
    let got = rx.recv().unwrap();
    assert_eq!(got.len(), 2048);
    let full = plain::Format::new().encode(Level::Error, &body);
    assert!(full.len() > 2048);
    assert_eq!(got, full[..2048].to_vec());
}

#[test]
fn truncate_cuts_3000_bytes_to_exactly_2048() {
    let payload = vec![b'x'; 3000];
    let out = truncate_payload(payload, 2048);
    assert_eq!(out.len(), 2048);
    assert_eq!(out, vec![b'x'; 2048]);
}

#[test]
fn truncate_leaves_short_payload_alone() {
    let payload = b"short".to_vec();
    let out = truncate_payload(payload.clone(), 2048);
    assert_eq!(out, payload);
}

#[test]
fn bounded_channel_holds_capacity_and_drops_nothing() {
    let (tx, rx) = sync_channel(12);
    let appender = SyslogAppenderBuilder::new().build(tx);
    for i in 0..12 {
        assert!(appender.append(Level::Info, &format!("m{}", i)).is_ok());
    }
    drop(appender);
    let mut got = Vec::new();
    while let Ok(v) = rx.recv() {
        got.push(v);
    }
    assert_eq!(got.len(), 12);
    for (i, v) in got.iter().enumerate() {
        assert_eq!(*v, format!("<14> m{}\n", i).into_bytes());
    }
}

#[test]
fn append_reports_disconnected_worker_with_payload() {
    let (tx, rx) = sync_channel(12);
    drop(rx);
    let appender = SyslogAppenderBuilder::new().build(tx);
    let err = appender.append(Level::Error, "lost").unwrap_err();
    assert_eq!(err.payload, b"<11> lost\n".to_vec());
}

#[test]
fn builder_defaults_are_the_documented_ones() {
    let (tx, _rx) = sync_channel(12);
    let builder = SyslogAppenderBuilder::new();
    assert_eq!(builder.max_len, DEFAULT_MAX_LEN);
    assert_eq!(builder.addrs, "localhost:514");
    assert!(matches!(builder.msg_format, MessageFormat::Plain(_)));
    let appender = builder.build(tx);
    assert_eq!(appender.addr, "localhost:514");
    assert_eq!(appender.max_len, 2048);
}

#[test]
fn build_normalizes_portless_address() {
    let (tx, _rx) = sync_channel(12);
    let appender = SyslogAppenderBuilder::new()
        .address("example.com".to_string())
        .build(tx);
    assert_eq!(appender.addr, "example.com:514");
}

#[test]
fn flush_is_a_no_op() {
    let (tx, rx) = sync_channel(12);
    let appender = SyslogAppenderBuilder::new().build(tx);
    appender.flush();
    assert!(appender.append(Level::Info, "after flush").is_ok());
    assert_eq!(rx.recv().unwrap(), b"<14> after flush\n".to_vec());
}

#[test]
fn append_formats_with_configured_variant() {
    let (tx, rx) = sync_channel(12);
    let fmt = syslog_net::rfc5424::Format::new()
        .hostname("h".to_string())
        .app_name("a".to_string())
        .proc_id("1".to_string());
    let appender = SyslogAppenderBuilder::new()
        .format(MessageFormat::Rfc5424(fmt))
        .build(tx);
    assert!(appender.append(Level::Error, "m").is_ok());
    let got = String::from_utf8(rx.recv().unwrap()).unwrap();
    assert!(got.starts_with("<131>1 "));
    assert!(got.ends_with(" h a 1 0 - m\n"));
}
