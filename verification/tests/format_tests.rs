use syslog_net::consts::{level_to_severity, priority, Facility, Level};
use syslog_net::plain;
use syslog_net::rfc5424;
use syslog_net::rfc5425;

const ALL_FACILITIES: [Facility; 24] = [
    Facility::KERN,
    Facility::USER,
    Facility::MAIL,
    Facility::DAEMON,
    Facility::AUTH,
    Facility::SYSLOG,
    Facility::LPR,
    Facility::NEWS,
    Facility::UUCP,
    Facility::CRON,
    Facility::AUTHPRIV,
    Facility::FTP,
    Facility::NTP,
    Facility::AUDIT,
    Facility::ALERT,
    Facility::CLOCK,
    Facility::LOCAL0,
    Facility::LOCAL1,
    Facility::LOCAL2,
    Facility::LOCAL3,
    Facility::LOCAL4,
    Facility::LOCAL5,
    Facility::LOCAL6,
    Facility::LOCAL7,
];

const ALL_LEVELS: [Level; 5] = [Level::Error, Level::Warn, Level::Info, Level::Debug, Level::Trace];

#[test]
fn priority_user_error_is_11() {
    assert_eq!(priority(Facility::USER, Level::Error), 11);
}

#[test]
fn priority_within_range_for_all_pairs() {
    for f in ALL_FACILITIES {
        for l in ALL_LEVELS {
            let p = priority(f, l);
            assert!(p <= 191);
            assert_eq!(p, f.code() | level_to_severity(l));
        }
    }
}

#[test]
fn priority_is_deterministic() {
    for f in ALL_FACILITIES {
        for l in ALL_LEVELS {
            assert_eq!(priority(f, l), priority(f, l));
        }
    }
}

#[test]
fn severity_scale_matches_syslog() {
    assert_eq!(level_to_severity(Level::Error), 3);
    assert_eq!(level_to_severity(Level::Warn), 4);
    assert_eq!(level_to_severity(Level::Info), 6);
    assert_eq!(level_to_severity(Level::Debug), 7);
    assert_eq!(level_to_severity(Level::Trace), 7);
}

#[test]
fn facility_codes_are_pre_shifted() {
    assert_eq!(Facility::KERN.code(), 0);
    assert_eq!(Facility::USER.code(), 8);
    assert_eq!(Facility::LOCAL0.code(), 128);
    assert_eq!(Facility::LOCAL7.code(), 184);
}

#[test]
fn plain_format_hello_pri_11() {
    let fmt = plain::Format::new();
    let out = fmt.encode(Level::Error, "hello");
    assert_eq!(out, b"<11> hello\n".to_vec());
}

#[test]
fn plain_format_empty_body() {
    let fmt = plain::Format::new();
    let out = fmt.encode(Level::Info, "");
    assert_eq!(out, b"<14> \n".to_vec());
}

#[test]
fn plain_format_configured_facility() {
    let fmt = plain::Format::new().facility(Facility::LOCAL7);
    let out = fmt.encode(Level::Trace, "x");
    assert_eq!(out, b"<191> x\n".to_vec());
}

fn looks_like_rfc3339(ts: &str) -> bool {
    let b = ts.as_bytes();
    if b.len() < 19 {
        return false;
    }
    let digits = [0, 1, 2, 3, 5, 6, 8, 9, 11, 12, 14, 15, 17, 18];
    for i in digits {
        if !b[i].is_ascii_digit() {
            return false;
        }
    }
    b[4] == b'-' && b[7] == b'-' && b[10] == b'T' && b[13] == b':' && b[16] == b':'
}

#[test]
fn rfc5424_format_with_fixed_timestamp() {
    let fmt = rfc5424::Format::new()
        .hostname("h".to_string())
        .app_name("a".to_string())
        .proc_id("1".to_string());
    let out = fmt.format_with_timestamp(Level::Error, "2018-01-26T18:30:09+00:00", "m");
    assert_eq!(out, b"<131>1 2018-01-26T18:30:09+00:00 h a 1 0 - m\n".to_vec());
}

#[test]
fn rfc5424_empty_fields_keep_their_slots() {
    let fmt = rfc5424::Format::new();
    let out = fmt.format_with_timestamp(Level::Error, "2018-01-26T18:30:09+00:00", "m");
    assert_eq!(out, b"<131>1 2018-01-26T18:30:09+00:00    0 - m\n".to_vec());
}

#[test]
fn rfc5424_bom_precedes_body_only() {
    let fmt = rfc5424::Format::new()
        .hostname("h".to_string())
        .app_name("a".to_string())
        .proc_id("1".to_string())
        .bom(true);
    let out = fmt.format_with_timestamp(Level::Error, "2018-01-26T18:30:09+00:00", "m");
    let mut expected = b"<131>1 2018-01-26T18:30:09+00:00 h a 1 0 - ".to_vec();
    expected.extend_from_slice(&[0xEF, 0xBB, 0xBF]);
    expected.extend_from_slice(b"m\n");
    assert_eq!(out, expected);
}

#[test]
fn rfc5424_encode_carries_fresh_rfc3339_timestamp() {
    let fmt = rfc5424::Format::new()
        .hostname("h".to_string())
        .app_name("a".to_string())
        .proc_id("1".to_string());
    let out = fmt.encode(Level::Warn, "m");
    let text = String::from_utf8(out).unwrap();
    let fields: Vec<&str> = text.split(' ').collect();
    assert_eq!(fields.len(), 8);
    assert_eq!(fields[0], "<132>1");
    assert!(looks_like_rfc3339(fields[1]));
    assert_eq!(fields[2], "h");
    assert_eq!(fields[3], "a");
    assert_eq!(fields[4], "1");
    assert_eq!(fields[5], "0");
    assert_eq!(fields[6], "-");
    assert_eq!(fields[7], "m\n");
}

#[test]
fn rfc5425_frame_with_fixed_timestamp() {
    let fmt = rfc5425::Format::new()
        .hostname("h".to_string())
        .app_name("a".to_string())
        .proc_id("1".to_string());
    let out = fmt.format_with_timestamp(Level::Error, "2018-01-26T18:30:09.453+00:00", "m");
    let line = b"<131>1 2018-01-26T18:30:09.453+00:00 h a 1 0 - m\n";
    let expected = format!("{} ", line.len()).into_bytes();
    let mut expected = expected;
    expected.extend_from_slice(line);
    assert_eq!(out, expected);
}

#[test]
fn rfc5425_count_is_byte_length_for_multibyte_utf8() {
    let fmt = rfc5425::Format::new().hostname("host".to_string());
    let body = "h\u{e9}llo \u{2713} \u{1f980}";
    let out = fmt.format_with_timestamp(Level::Info, "2018-01-26T18:30:09.453+00:00", body);
    let text = String::from_utf8(out).unwrap();
    let space = text.find(' ').unwrap();
    let count: usize = text[..space].parse().unwrap();
    let rest = &text[space + 1..];
    assert_eq!(count, rest.as_bytes().len());
    assert!(rest.ends_with(&format!("0 - {}\n", body)));
}

#[test]
fn rfc5425_encode_uses_millisecond_timestamp() {
    let fmt = rfc5425::Format::new()
        .hostname("h".to_string())
        .app_name("a".to_string())
        .proc_id("1".to_string());
    let out = fmt.encode(Level::Error, "m");
    let text = String::from_utf8(out).unwrap();
    let space = text.find(' ').unwrap();
    let count: usize = text[..space].parse().unwrap();
    let rest = &text[space + 1..];
    assert_eq!(count, rest.as_bytes().len());
    let fields: Vec<&str> = rest.split(' ').collect();
    assert_eq!(fields.len(), 8);
    assert_eq!(fields[0], "<131>1");
    assert!(looks_like_rfc3339(fields[1]));
    // millisecond precision: a dot and three fractional digits follow the seconds
    let ts = fields[1].as_bytes();
    assert_eq!(ts[19], b'.');
    assert!(ts[20].is_ascii_digit() && ts[21].is_ascii_digit() && ts[22].is_ascii_digit());
}
