//! Syslog facilities, severities, and priority computation.
//!
//! A facility is stored as its numeric code already shifted left by three
//! bits, so that it combines with a severity (0..=7) by bitwise OR into the
//! PRI value of the message envelope.

use vstd::prelude::*;

verus! {

/// The RFC 5424 NILVALUE token `-`, as a byte.
pub const NILVALUE: u8 = 45;

/// The 24 standard syslog facilities.
#[derive(Clone, Copy, Debug, PartialEq, Eq)]
pub enum Facility {
    KERN,
    USER,
    MAIL,
    DAEMON,
    AUTH,
    SYSLOG,
    LPR,
    NEWS,
    UUCP,
    CRON,
    AUTHPRIV,
    FTP,
    NTP,
    AUDIT,
    ALERT,
    CLOCK,
    LOCAL0,
    LOCAL1,
    LOCAL2,
    LOCAL3,
    LOCAL4,
    LOCAL5,
    LOCAL6,
    LOCAL7,
}

/// The facility code, pre-shifted left by three bits.
pub open spec fn facility_code(f: Facility) -> u8 {
    match f {
        Facility::KERN => 0,
        Facility::USER => 8,
        Facility::MAIL => 16,
        Facility::DAEMON => 24,
        Facility::AUTH => 32,
        Facility::SYSLOG => 40,
        Facility::LPR => 48,
        Facility::NEWS => 56,
        Facility::UUCP => 64,
        Facility::CRON => 72,
        Facility::AUTHPRIV => 80,
        Facility::FTP => 88,
        Facility::NTP => 96,
        Facility::AUDIT => 104,
        Facility::ALERT => 112,
        Facility::CLOCK => 120,
        Facility::LOCAL0 => 128,
        Facility::LOCAL1 => 136,
        Facility::LOCAL2 => 144,
        Facility::LOCAL3 => 152,
        Facility::LOCAL4 => 160,
        Facility::LOCAL5 => 168,
        Facility::LOCAL6 => 176,
        Facility::LOCAL7 => 184,
    }
}

impl Facility {
    /// The numeric facility code, pre-shifted left by three bits.
    pub fn code(&self) -> (c: u8)
        ensures
            c == facility_code(*self),
    {
        match self {
            Facility::KERN => 0,
            Facility::USER => 8,
            Facility::MAIL => 16,
            Facility::DAEMON => 24,
            Facility::AUTH => 32,
            Facility::SYSLOG => 40,
            Facility::LPR => 48,
            Facility::NEWS => 56,
            Facility::UUCP => 64,
            Facility::CRON => 72,
            Facility::AUTHPRIV => 80,
            Facility::FTP => 88,
            Facility::NTP => 96,
            Facility::AUDIT => 104,
            Facility::ALERT => 112,
            Facility::CLOCK => 120,
            Facility::LOCAL0 => 128,
            Facility::LOCAL1 => 136,
            Facility::LOCAL2 => 144,
            Facility::LOCAL3 => 152,
            Facility::LOCAL4 => 160,
            Facility::LOCAL5 => 168,
            Facility::LOCAL6 => 176,
            Facility::LOCAL7 => 184,
        }
    }
}

/// The log levels a record can carry, in the host framework's scale.
#[derive(Clone, Copy, Debug, PartialEq, Eq)]
pub enum Level {
    Error,
    Warn,
    Info,
    Debug,
    Trace,
}

/// The syslog severity a log level maps to.
pub open spec fn severity_code(level: Level) -> u8 {
    match level {
        Level::Error => 3,
        Level::Warn => 4,
        Level::Info => 6,
        Level::Debug => 7,
        Level::Trace => 7,
    }
}

/// Maps a log level to its syslog severity code.
pub fn level_to_severity(level: Level) -> (s: u8)
    ensures
        s == severity_code(level),
{
    match level {
        Level::Error => 3,
        Level::Warn => 4,
        Level::Info => 6,
        Level::Debug => 7,
        Level::Trace => 7,
    }
}

/// The PRI value of a message: facility code OR'd with severity.
pub open spec fn priority_value(f: Facility, level: Level) -> u8 {
    facility_code(f) | severity_code(level)
}

/// Every facility/severity combination yields a PRI of at most 191, and the
/// OR of the pre-shifted facility code with the severity is their sum.
pub proof fn lemma_priority_bounded(f: Facility, level: Level)
    ensures
        priority_value(f, level) == facility_code(f) + severity_code(level),
        priority_value(f, level) <= 191,
{
    let c = facility_code(f);
    let s = severity_code(level);
    assert(c % 8 == 0 && c <= 184);
    assert(s <= 7);
    assert(c % 8 == 0 && c <= 184 && s <= 7 ==> ((c | s) == c + s && (c | s) <= 191))
        by (bit_vector);
}

/// Computes the PRI value transmitted in the envelope.
pub fn priority(f: Facility, level: Level) -> (pri: u8)
    ensures
        pri == priority_value(f, level),
        pri <= 191,
{
    proof {
        lemma_priority_bounded(f, level);
    }
    f.code() | level_to_severity(level)
}

} // verus!
