//! Syslog network appender.
//!
//! Builds byte-exact syslog payloads — plain `<PRI>` envelopes, RFC 5424
//! headers, and RFC 5425 octet-counted frames — around bodies that an
//! external encoder has already rendered to text, applies the
//! maximum-length policy, and hands the finished bytes to a bounded writer
//! channel drained by a single transport worker that owns the UDP socket or
//! TCP stream exclusively.

use vstd::prelude::*;

pub mod channel;
pub mod clock;
pub mod config;
pub mod consts;
pub mod plain;
pub mod rfc5424;
pub mod rfc5425;
pub mod text;
pub mod wire;

use std::sync::mpsc::SyncSender;
use vstd::string::StringExecFns;
use vstd::utf8::encode_utf8;
use crate::channel::channel_send;
use crate::clock::wire_timestamp;
use crate::config::Protocol;
use crate::consts::{priority_value, Level};
use crate::text::contains_char;
use crate::wire::{truncate_payload, truncated};

verus! {

/// The port used when a configured address names none.
pub const DEFAULT_PORT: u16 = 514;

/// The payload byte limit used when none is configured.
pub const DEFAULT_MAX_LEN: usize = 2048;

/// Syslog message format: a closed choice among the three wire formats,
/// selected once at build time and immutable thereafter.
#[derive(Clone, Debug)]
pub enum MessageFormat {
    /// No formatting beyond the PRI prefix and trailing newline.
    Plain(plain::Format),
    /// Formatting according to RFC 5424.
    Rfc5424(rfc5424::Format),
    /// Formatting according to RFC 5425: octet-counted framing for stream
    /// transports.
    Rfc5425(rfc5425::Format),
}

impl MessageFormat {
    /// The envelope bytes this variant produces around a rendered body,
    /// given the timestamp bytes a clock reading produced. The plain
    /// variant carries no timestamp and ignores it.
    pub open spec fn envelope(self, level: Level, ts: Seq<u8>, body: Seq<char>) -> Seq<u8> {
        match self {
            MessageFormat::Plain(f) => plain::plain_payload(
                priority_value(f.facility, level),
                encode_utf8(body),
            ),
            MessageFormat::Rfc5424(f) => rfc5424::rfc5424_line(
                priority_value(f.facility, level),
                ts,
                encode_utf8(f.hostname@),
                encode_utf8(f.app_name@),
                encode_utf8(f.proc_id@),
                f.bom,
                encode_utf8(body),
            ),
            MessageFormat::Rfc5425(f) => rfc5425::octet_framed(
                rfc5424::rfc5424_line(
                    priority_value(f.facility, level),
                    ts,
                    encode_utf8(f.hostname@),
                    encode_utf8(f.app_name@),
                    encode_utf8(f.proc_id@),
                    false,
                    encode_utf8(body),
                ),
            ),
        }
    }

    /// Formats an already-rendered body, stamping the current time where
    /// the chosen variant carries a timestamp.
    pub fn format(&self, level: Level, body: &str) -> (r: Vec<u8>)
        ensures
            exists|ts: Seq<u8>|
                #[trigger] wire_timestamp(ts) && r@ == self.envelope(level, ts, body@),
    {
        match self {
            MessageFormat::Plain(f) => {
                let r = f.encode(level, body);
                proof {
                    assert(wire_timestamp(seq![84u8]));
                    assert(r@ == self.envelope(level, seq![84u8], body@));
                }
                r
            },
            MessageFormat::Rfc5424(f) => {
                let r = f.encode(level, body);
                proof {
                    let ts = choose|ts: Seq<u8>|
                        #[trigger] wire_timestamp(ts) && r@ == rfc5424::rfc5424_line(
                            priority_value(f.facility, level),
                            ts,
                            encode_utf8(f.hostname@),
                            encode_utf8(f.app_name@),
                            encode_utf8(f.proc_id@),
                            f.bom,
                            encode_utf8(body@),
                        );
                    assert(wire_timestamp(ts) && r@ == self.envelope(level, ts, body@));
                }
                r
            },
            MessageFormat::Rfc5425(f) => {
                let r = f.encode(level, body);
                proof {
                    let ts = choose|ts: Seq<u8>|
                        #[trigger] wire_timestamp(ts) && r@ == rfc5425::octet_framed(
                            rfc5424::rfc5424_line(
                                priority_value(f.facility, level),
                                ts,
                                encode_utf8(f.hostname@),
                                encode_utf8(f.app_name@),
                                encode_utf8(f.proc_id@),
                                false,
                                encode_utf8(body@),
                            ),
                        );
                    assert(wire_timestamp(ts) && r@ == self.envelope(level, ts, body@));
                }
                r
            },
        }
    }
}

/// Transmission error: the transport worker has disconnected; carries the
/// payload that could not be handed over. The appender does not retry,
/// reconnect, or buffer for later delivery.
#[derive(Debug)]
pub struct AppendError {
    pub payload: Vec<u8>,
}

/// Appender that formats log records into syslog payloads and submits them
/// to the bounded writer channel. Created once at build time; the channel's
/// receiving half is drained by a single worker that owns the socket.
#[derive(Debug)]
pub struct SyslogAppender {
    pub addr: String,
    pub max_len: usize,
    pub msg_format: MessageFormat,
    pub writer: SyncSender<Vec<u8>>,
}

impl SyslogAppender {
    /// Formats the rendered body, applies the maximum-length policy, and
    /// submits the payload. The submission blocks only on channel capacity;
    /// it fails exactly when the worker has disconnected, returning the
    /// truncated envelope that was not handed over.
    pub fn append(&self, level: Level, body: &str) -> (r: Result<(), AppendError>)
        ensures
            r matches Err(e) ==> exists|ts: Seq<u8>|
                #[trigger] wire_timestamp(ts) && e.payload@ == truncated(
                    self.msg_format.envelope(level, ts, body@),
                    self.max_len as nat,
                ),
    {
        let msg = self.msg_format.format(level, body);
        let ghost msg_view = msg@;
        let payload = truncate_payload(msg, self.max_len);
        match channel_send(&self.writer, payload) {
            Ok(()) => Ok(()),
            Err(v) => {
                proof {
                    let ts = choose|ts: Seq<u8>|
                        #[trigger] wire_timestamp(ts) && msg_view == self.msg_format.envelope(
                            level,
                            ts,
                            body@,
                        );
                    assert(wire_timestamp(ts) && v@ == truncated(
                        self.msg_format.envelope(level, ts, body@),
                        self.max_len as nat,
                    ));
                }
                Err(AppendError { payload: v })
            },
        }
    }

    /// Syslog delivery is fire-and-forget: there is no local buffer to
    /// force out beyond the transport's own I/O, so flush has nothing to do
    /// by design.
    pub fn flush(&self) {
    }
}

/// The configured address with the default port appended when it carries no
/// port delimiter.
pub open spec fn normalized_addr(addr: Seq<char>) -> Seq<char> {
    if addr.contains(':') {
        addr
    } else {
        addr + seq![':', '5', '1', '4']
    }
}

/// Appends `:514` — the default syslog port — to an address without a port
/// delimiter; an address that carries one passes through unchanged.
pub fn normalize_addr(addr: String) -> (r: String)
    ensures
        r@ == normalized_addr(addr@),
{
    if contains_char(addr.as_str(), ':') {
        addr
    } else {
        let r = addr.concat(":514");
        proof {
            reveal_strlit(":514");
            assert(":514"@ =~= seq![':', '5', '1', '4']);
        }
        r
    }
}

/// Builder for `SyslogAppender`: an explicit configuration validated once
/// at construction. Opening the socket or connection and starting the
/// transport worker happen at build time, outside this library's scope; the
/// builder hands the finished configuration and the writer channel to the
/// appender.
pub struct SyslogAppenderBuilder {
    pub addrs: String,
    pub msg_format: MessageFormat,
    pub protocol: Protocol,
    pub max_len: usize,
}

impl SyslogAppenderBuilder {
    /// Creates a builder with the defaults: address `localhost:514`, plain
    /// format, UDP transport, and a 2048-byte payload limit.
    pub fn new() -> (r: SyslogAppenderBuilder)
        ensures
            r.addrs@ == "localhost:514"@,
            r.msg_format matches MessageFormat::Plain(f) && f.facility
                == crate::consts::Facility::USER,
            r.protocol == Protocol::Udp,
            r.max_len == DEFAULT_MAX_LEN,
    {
        SyslogAppenderBuilder {
            addrs: String::from_str("localhost:514"),
            msg_format: MessageFormat::Plain(plain::Format::new()),
            protocol: Protocol::Udp,
            max_len: DEFAULT_MAX_LEN,
        }
    }

    /// Sets the network address of the syslog server.
    ///
    /// Defaults to `localhost:514`.
    pub fn address(self, addrs: String) -> (r: SyslogAppenderBuilder)
        ensures
            r == (SyslogAppenderBuilder { addrs, ..self }),
    {
        SyslogAppenderBuilder { addrs, ..self }
    }

    /// Sets the type of log message formatter.
    ///
    /// Defaults to plain.
    pub fn format(self, mf: MessageFormat) -> (r: SyslogAppenderBuilder)
        ensures
            r == (SyslogAppenderBuilder { msg_format: mf, ..self }),
    {
        SyslogAppenderBuilder { msg_format: mf, ..self }
    }

    /// Sets the transport protocol.
    ///
    /// Defaults to UDP.
    pub fn protocol(self, protocol: Protocol) -> (r: SyslogAppenderBuilder)
        ensures
            r == (SyslogAppenderBuilder { protocol, ..self }),
    {
        SyslogAppenderBuilder { protocol, ..self }
    }

    /// Sets the maximum payload length in bytes; a longer payload is
    /// truncated to exactly this many bytes before transmission.
    ///
    /// Defaults to 2048.
    pub fn max_len(self, max_len: usize) -> (r: SyslogAppenderBuilder)
        ensures
            r == (SyslogAppenderBuilder { max_len, ..self }),
    {
        SyslogAppenderBuilder { max_len, ..self }
    }

    /// Produces a `SyslogAppender` from the builder's configuration and the
    /// sending half of the writer channel, normalizing the target address.
    pub fn build(self, writer: SyncSender<Vec<u8>>) -> (a: SyslogAppender)
        ensures
            a.addr@ == normalized_addr(self.addrs@),
            a.msg_format == self.msg_format,
            a.max_len == self.max_len,
            a.writer == writer,
    {
        let addr = normalize_addr(self.addrs);
        SyslogAppender { addr, max_len: self.max_len, msg_format: self.msg_format, writer }
    }
}

} // verus!
