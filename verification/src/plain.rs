//! The plain (legacy, minimal) envelope format: `<PRI> body\n`.

use vstd::prelude::*;
use vstd::utf8::encode_utf8;
use crate::consts::{Facility, Level, priority, priority_value};
use crate::wire::{dec_digits, dec_u64, push_all};

verus! {

/// The bytes of a plain envelope: `<PRI> `, the rendered body, a newline.
/// No timestamp and no hostname.
pub open spec fn plain_payload(pri: u8, body: Seq<u8>) -> Seq<u8> {
    seq![60u8] + dec_digits(pri as nat) + seq![62u8, 32u8] + body + seq![10u8]
}

/// The plain formatter. It carries only the facility that the PRI is
/// computed from; the default is USER.
#[derive(Clone, Debug)]
pub struct Format {
    pub facility: Facility,
}

impl Format {
    /// A plain formatter with the USER facility.
    pub fn new() -> (r: Format)
        ensures
            r.facility == Facility::USER,
    {
        Format { facility: Facility::USER }
    }

    /// Replaces the facility.
    pub fn facility(self, facility: Facility) -> (r: Format)
        ensures
            r.facility == facility,
    {
        Format { facility }
    }

    /// Wraps an already-rendered body into a plain envelope.
    pub fn encode(&self, level: Level, body: &str) -> (r: Vec<u8>)
        ensures
            r@ == plain_payload(priority_value(self.facility, level), encode_utf8(body@)),
    {
        let pri = priority(self.facility, level);
        let digits = dec_u64(pri as u64);
        let mut out: Vec<u8> = Vec::new();
        out.push(60);
        push_all(&mut out, digits.as_slice());
        out.push(62);
        out.push(32);
        push_all(&mut out, body.as_bytes());
        out.push(10);
        proof {
            assert(out@ =~= plain_payload(priority_value(self.facility, level), encode_utf8(body@)));
        }
        out
    }
}

impl Default for Format {
    /// The default plain formatter, with the USER facility.
    fn default() -> (r: Format)
        ensures
            r.facility == Facility::USER,
    {
        Format::new()
    }
}

} // verus!
