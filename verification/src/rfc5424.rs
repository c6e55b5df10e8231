//! The RFC 5424 envelope format.
//!
//! A message reads `<PRI>1 timestamp hostname app_name proc_id 0 - body\n`.
//! The eight space-delimited header fields are positional and fixed in
//! count: an empty hostname, app name, or proc id still occupies its slot as
//! an empty string. MsgId is always the literal `0` and structured data is
//! always the NILVALUE token `-`. When the byte-order-mark option is on,
//! the three BOM bytes precede the rendered body only, never the header.

use vstd::prelude::*;
use vstd::utf8::encode_utf8;
use crate::clock::{now_rfc3339_secs, wire_timestamp};
use crate::consts::{Facility, Level, priority, priority_value, NILVALUE};
use crate::wire::{dec_digits, dec_u64, push_all};

verus! {

/// The three bytes of the UTF-8 byte-order mark.
pub open spec fn bom_bytes() -> Seq<u8> {
    seq![239u8, 187u8, 191u8]
}

/// The bytes of an RFC 5424 envelope around an already-rendered body.
pub open spec fn rfc5424_line(
    pri: u8,
    ts: Seq<u8>,
    hostname: Seq<u8>,
    app_name: Seq<u8>,
    proc_id: Seq<u8>,
    bom: bool,
    body: Seq<u8>,
) -> Seq<u8> {
    seq![60u8] + dec_digits(pri as nat) + seq![62u8, 49u8, 32u8] + ts + seq![32u8] + hostname
        + seq![32u8] + app_name + seq![32u8] + proc_id + seq![32u8, 48u8, 32u8, NILVALUE, 32u8] + (
    if bom {
        bom_bytes()
    } else {
        Seq::<u8>::empty()
    }) + body + seq![10u8]
}

/// Builds an RFC 5424 header+body line from its rendered parts.
pub fn build_line(
    pri: u8,
    timestamp: &str,
    hostname: &str,
    app_name: &str,
    proc_id: &str,
    bom: bool,
    body: &str,
) -> (r: Vec<u8>)
    ensures
        r@ == rfc5424_line(
            pri,
            encode_utf8(timestamp@),
            encode_utf8(hostname@),
            encode_utf8(app_name@),
            encode_utf8(proc_id@),
            bom,
            encode_utf8(body@),
        ),
{
    let digits = dec_u64(pri as u64);
    let mut out: Vec<u8> = Vec::new();
    out.push(60);
    push_all(&mut out, digits.as_slice());
    out.push(62);
    out.push(49);
    out.push(32);
    push_all(&mut out, timestamp.as_bytes());
    out.push(32);
    push_all(&mut out, hostname.as_bytes());
    out.push(32);
    push_all(&mut out, app_name.as_bytes());
    out.push(32);
    push_all(&mut out, proc_id.as_bytes());
    out.push(32);
    out.push(48);
    out.push(32);
    out.push(NILVALUE);
    out.push(32);
    if bom {
        out.push(239);
        out.push(187);
        out.push(191);
    }
    push_all(&mut out, body.as_bytes());
    out.push(10);
    proof {
        assert(out@ =~= rfc5424_line(
            pri,
            encode_utf8(timestamp@),
            encode_utf8(hostname@),
            encode_utf8(app_name@),
            encode_utf8(proc_id@),
            bom,
            encode_utf8(body@),
        ));
    }
    out
}

/// The RFC 5424 formatter configuration. All of it is chosen at build time
/// and immutable thereafter.
#[derive(Clone, Debug)]
pub struct Format {
    pub facility: Facility,
    pub hostname: String,
    pub app_name: String,
    pub proc_id: String,
    pub bom: bool,
}

impl Format {
    /// A formatter with the LOCAL0 facility, empty hostname, app name and
    /// proc id, and no byte-order mark. An empty field still occupies its
    /// positional header slot.
    pub fn new() -> (r: Format)
        ensures
            r.facility == Facility::LOCAL0,
            r.hostname@ == Seq::<char>::empty(),
            r.app_name@ == Seq::<char>::empty(),
            r.proc_id@ == Seq::<char>::empty(),
            r.bom == false,
    {
        Format {
            facility: Facility::LOCAL0,
            hostname: String::new(),
            app_name: String::new(),
            proc_id: String::new(),
            bom: false,
        }
    }

    /// Replaces the facility.
    pub fn facility(self, facility: Facility) -> (r: Format)
        ensures
            r == (Format { facility, ..self }),
    {
        Format { facility, ..self }
    }

    /// Replaces the hostname.
    pub fn hostname(self, hostname: String) -> (r: Format)
        ensures
            r == (Format { hostname, ..self }),
    {
        Format { hostname, ..self }
    }

    /// Replaces the app name.
    pub fn app_name(self, app_name: String) -> (r: Format)
        ensures
            r == (Format { app_name, ..self }),
    {
        Format { app_name, ..self }
    }

    /// Replaces the proc id.
    pub fn proc_id(self, proc_id: String) -> (r: Format)
        ensures
            r == (Format { proc_id, ..self }),
    {
        Format { proc_id, ..self }
    }

    /// Switches the byte-order mark before the body on or off.
    pub fn bom(self, bom: bool) -> (r: Format)
        ensures
            r == (Format { bom, ..self }),
    {
        Format { bom, ..self }
    }

    /// Wraps an already-rendered body into an RFC 5424 envelope carrying the
    /// given timestamp.
    pub fn format_with_timestamp(&self, level: Level, timestamp: &str, body: &str) -> (r: Vec<u8>)
        ensures
            r@ == rfc5424_line(
                priority_value(self.facility, level),
                encode_utf8(timestamp@),
                encode_utf8(self.hostname@),
                encode_utf8(self.app_name@),
                encode_utf8(self.proc_id@),
                self.bom,
                encode_utf8(body@),
            ),
    {
        let pri = priority(self.facility, level);
        build_line(
            pri,
            timestamp,
            self.hostname.as_str(),
            self.app_name.as_str(),
            self.proc_id.as_str(),
            self.bom,
            body,
        )
    }

    /// Wraps an already-rendered body into an RFC 5424 envelope, stamping it
    /// with the current time at second precision.
    pub fn encode(&self, level: Level, body: &str) -> (r: Vec<u8>)
        ensures
            exists|ts: Seq<u8>|
                #[trigger] wire_timestamp(ts) && r@ == rfc5424_line(
                    priority_value(self.facility, level),
                    ts,
                    encode_utf8(self.hostname@),
                    encode_utf8(self.app_name@),
                    encode_utf8(self.proc_id@),
                    self.bom,
                    encode_utf8(body@),
                ),
    {
        let timestamp = now_rfc3339_secs();
        let r = self.format_with_timestamp(level, timestamp.as_str(), body);
        proof {
            assert(wire_timestamp(encode_utf8(timestamp@)) && r@ == rfc5424_line(
                priority_value(self.facility, level),
                encode_utf8(timestamp@),
                encode_utf8(self.hostname@),
                encode_utf8(self.app_name@),
                encode_utf8(self.proc_id@),
                self.bom,
                encode_utf8(body@),
            ));
        }
        r
    }
}

impl Default for Format {
    /// The default RFC 5424 formatter, as [`Format::new`] builds it.
    fn default() -> (r: Format)
        ensures
            r.facility == Facility::LOCAL0,
            r.hostname@ == Seq::<char>::empty(),
            r.app_name@ == Seq::<char>::empty(),
            r.proc_id@ == Seq::<char>::empty(),
            r.bom == false,
    {
        Format::new()
    }
}

} // verus!
