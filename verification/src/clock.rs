//! Wall-clock timestamps for the message envelopes.
//!
//! A timestamp is regenerated at format time, so each message carries its own
//! send time. The formatters only assume the shape stated by
//! [`wire_timestamp`]; everything byte-exact about an envelope is proved for
//! any timestamp of that shape.

use vstd::prelude::*;
use vstd::utf8::encode_utf8;

verus! {

/// What the envelope formats assume of a generated timestamp, as UTF-8
/// bytes: nonempty, and free of the two delimiters (space, newline) that
/// structure the envelope.
pub open spec fn wire_timestamp(ts: Seq<u8>) -> bool {
    &&& ts.len() > 0
    &&& forall|i: int| 0 <= i < ts.len() ==> #[trigger] ts[i] != 32 && ts[i] != 10
}

/// Relies on chrono: `Utc::now().to_rfc3339_opts(SecondsFormat::Secs, false)`
/// renders the current instant as an RFC 3339 timestamp with second
/// precision, e.g. `2018-01-26T18:30:09+00:00`: ASCII digits and the
/// punctuation `-T:+`, never a space or a newline, never empty.
#[verifier::external_body]
pub(crate) fn now_rfc3339_secs() -> (ts: String)
    ensures
        wire_timestamp(encode_utf8(ts@)),
{
    chrono::Utc::now().to_rfc3339_opts(chrono::SecondsFormat::Secs, false)
}

/// Relies on chrono: `Utc::now().to_rfc3339_opts(SecondsFormat::Millis, false)`
/// renders the current instant as an RFC 3339 timestamp with millisecond
/// precision, e.g. `2018-01-26T18:30:09.453+00:00`: ASCII digits and the
/// punctuation `-T:.+`, never a space or a newline, never empty.
#[verifier::external_body]
pub(crate) fn now_rfc3339_millis() -> (ts: String)
    ensures
        wire_timestamp(encode_utf8(ts@)),
{
    chrono::Utc::now().to_rfc3339_opts(chrono::SecondsFormat::Millis, false)
}

} // verus!
