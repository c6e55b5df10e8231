//! The RFC 5425 envelope format: octet-counting transport framing.
//!
//! The header+body line is built exactly as in RFC 5424 (with millisecond
//! timestamp precision, and without the byte-order-mark option); then the
//! entire line, trailing newline included, is prefixed with its own decimal
//! byte length followed by a single space. A stream-oriented receiver, which
//! has no datagram boundaries, delimits one message from the next by that
//! count alone, without relying on any in-band terminator.

use vstd::prelude::*;
use vstd::utf8::encode_utf8;
use crate::clock::{now_rfc3339_millis, wire_timestamp};
use crate::consts::{Facility, Level, priority, priority_value};
use crate::rfc5424::{build_line, rfc5424_line};
use crate::wire::{
    dec_digits, dec_u64, dec_value, lemma_dec_digits_are_digits, lemma_dec_value_of_digits,
    push_all,
};

verus! {

/// An octet-counted frame: the line's byte length in decimal, one space,
/// then the line itself.
pub open spec fn octet_framed(line: Seq<u8>) -> Seq<u8> {
    dec_digits(line.len()) + seq![32u8] + line
}

/// The octet-counting framing law: in a framed message, everything before
/// the first space is a run of ASCII digits, and that run denotes exactly
/// the byte length of everything after the space, which is the framed line
/// itself, unchanged. This holds for any line, multi-byte UTF-8 contents
/// included, because the count is taken on raw bytes.
pub proof fn lemma_octet_framing(line: Seq<u8>)
    ensures
        octet_framed(line).len() == dec_digits(line.len()).len() + 1 + line.len(),
        forall|j: int|
            0 <= j < dec_digits(line.len()).len() ==> 48 <= #[trigger] octet_framed(line)[j] <= 57,
        octet_framed(line)[dec_digits(line.len()).len() as int] == 32,
        octet_framed(line).skip(dec_digits(line.len()).len() as int + 1) == line,
        dec_value(octet_framed(line).take(dec_digits(line.len()).len() as int)) == line.len(),
{
    let digits = dec_digits(line.len());
    lemma_dec_digits_are_digits(line.len());
    lemma_dec_value_of_digits(line.len());
    assert(octet_framed(line).skip(digits.len() as int + 1) =~= line);
    assert(octet_framed(line).take(digits.len() as int) =~= digits);
}

/// Frames an already-built line with its decimal byte count and a space.
pub fn frame_line(line: Vec<u8>) -> (r: Vec<u8>)
    ensures
        r@ == octet_framed(line@),
{
    let digits = dec_u64(line.len() as u64);
    let mut out: Vec<u8> = Vec::new();
    push_all(&mut out, digits.as_slice());
    out.push(32);
    push_all(&mut out, line.as_slice());
    proof {
        assert(out@ =~= octet_framed(line@));
    }
    out
}

/// The RFC 5425 formatter configuration. All of it is chosen at build time
/// and immutable thereafter.
#[derive(Clone, Debug)]
pub struct Format {
    pub facility: Facility,
    pub hostname: String,
    pub app_name: String,
    pub proc_id: String,
}

impl Format {
    /// A formatter with the LOCAL0 facility and empty hostname, app name
    /// and proc id. An empty field still occupies its positional header
    /// slot.
    pub fn new() -> (r: Format)
        ensures
            r.facility == Facility::LOCAL0,
            r.hostname@ == Seq::<char>::empty(),
            r.app_name@ == Seq::<char>::empty(),
            r.proc_id@ == Seq::<char>::empty(),
    {
        Format {
            facility: Facility::LOCAL0,
            hostname: String::new(),
            app_name: String::new(),
            proc_id: String::new(),
        }
    }

    /// Replaces the facility.
    pub fn facility(self, facility: Facility) -> (r: Format)
        ensures
            r == (Format { facility, ..self }),
    {
        Format { facility, ..self }
    }

    /// Replaces the hostname.
    pub fn hostname(self, hostname: String) -> (r: Format)
        ensures
            r == (Format { hostname, ..self }),
    {
        Format { hostname, ..self }
    }

    /// Replaces the app name.
    pub fn app_name(self, app_name: String) -> (r: Format)
        ensures
            r == (Format { app_name, ..self }),
    {
        Format { app_name, ..self }
    }

    /// Replaces the proc id.
    pub fn proc_id(self, proc_id: String) -> (r: Format)
        ensures
            r == (Format { proc_id, ..self }),
    {
        Format { proc_id, ..self }
    }

    /// Builds the RFC 5424-style line around an already-rendered body with
    /// the given timestamp, then frames it with its own byte count.
    pub fn format_with_timestamp(&self, level: Level, timestamp: &str, body: &str) -> (r: Vec<u8>)
        ensures
            r@ == octet_framed(
                rfc5424_line(
                    priority_value(self.facility, level),
                    encode_utf8(timestamp@),
                    encode_utf8(self.hostname@),
                    encode_utf8(self.app_name@),
                    encode_utf8(self.proc_id@),
                    false,
                    encode_utf8(body@),
                ),
            ),
    {
        let pri = priority(self.facility, level);
        let line = build_line(
            pri,
            timestamp,
            self.hostname.as_str(),
            self.app_name.as_str(),
            self.proc_id.as_str(),
            false,
            body,
        );
        frame_line(line)
    }

    /// Wraps an already-rendered body into an octet-counted RFC 5425 frame,
    /// stamping it with the current time at millisecond precision.
    pub fn encode(&self, level: Level, body: &str) -> (r: Vec<u8>)
        ensures
            exists|ts: Seq<u8>|
                #[trigger] wire_timestamp(ts) && r@ == octet_framed(
                    rfc5424_line(
                        priority_value(self.facility, level),
                        ts,
                        encode_utf8(self.hostname@),
                        encode_utf8(self.app_name@),
                        encode_utf8(self.proc_id@),
                        false,
                        encode_utf8(body@),
                    ),
                ),
    {
        let timestamp = now_rfc3339_millis();
        let r = self.format_with_timestamp(level, timestamp.as_str(), body);
        proof {
            assert(wire_timestamp(encode_utf8(timestamp@)) && r@ == octet_framed(
                rfc5424_line(
                    priority_value(self.facility, level),
                    encode_utf8(timestamp@),
                    encode_utf8(self.hostname@),
                    encode_utf8(self.app_name@),
                    encode_utf8(self.proc_id@),
                    false,
                    encode_utf8(body@),
                ),
            ));
        }
        r
    }
}

impl Default for Format {
    /// The default RFC 5425 formatter, as [`Format::new`] builds it.
    fn default() -> (r: Format)
        ensures
            r.facility == Facility::LOCAL0,
            r.hostname@ == Seq::<char>::empty(),
            r.app_name@ == Seq::<char>::empty(),
            r.proc_id@ == Seq::<char>::empty(),
    {
        Format::new()
    }
}

} // verus!
