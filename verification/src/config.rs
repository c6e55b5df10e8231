//! Configuration values: the format-kind and protocol tokens a
//! configuration names, the configuration error taxonomy, and the assembly
//! of a format variant from configured options.

use vstd::prelude::*;
use crate::consts::Facility;
use crate::text::str_eq;
use crate::{plain, rfc5424, rfc5425, MessageFormat};

verus! {

/// The kind of message format a configuration selects.
#[derive(Clone, Copy, Debug, PartialEq, Eq)]
pub enum MessageFormatKind {
    Plain,
    Rfc5424,
    Rfc5425,
}

impl Default for MessageFormatKind {
    /// The plain format is the default when no format is configured.
    fn default() -> (r: MessageFormatKind)
        ensures
            r == MessageFormatKind::Plain,
    {
        MessageFormatKind::Plain
    }
}

/// The network transport protocols an appender can use.
#[derive(Clone, Copy, Debug, PartialEq, Eq)]
pub enum Protocol {
    Udp,
    Tcp,
}

/// A configuration error: fatal at build time, surfaced to the caller of
/// the builder, never silently defaulted.
#[derive(Clone, Copy, Debug, PartialEq, Eq)]
pub enum ConfigError {
    /// The configured protocol token names neither `udp` nor `tcp`.
    UnsupportedProtocol,
}

impl ConfigError {
    /// A description of the error.
    pub fn message(&self) -> (r: &'static str)
        ensures
            r@ == "unsupported protocol: expected udp or tcp"@,
    {
        "unsupported protocol: expected udp or tcp"
    }
}

/// Parses a protocol token. Exactly `udp` and `tcp` are accepted; any
/// other token is an unsupported-protocol configuration error, from which
/// no socket is ever constructed.
pub fn parse_protocol(token: &str) -> (r: Result<Protocol, ConfigError>)
    ensures
        token@ == "udp"@ ==> r == Ok::<Protocol, ConfigError>(Protocol::Udp),
        token@ == "tcp"@ ==> r == Ok::<Protocol, ConfigError>(Protocol::Tcp),
        token@ != "udp"@ && token@ != "tcp"@ ==> r == Err::<Protocol, ConfigError>(
            ConfigError::UnsupportedProtocol,
        ),
{
    proof {
        reveal_strlit("udp");
        reveal_strlit("tcp");
        assert("udp"@[0] != "tcp"@[0]);
    }
    if str_eq(token, "udp") {
        Ok(Protocol::Udp)
    } else if str_eq(token, "tcp") {
        Ok(Protocol::Tcp)
    } else {
        Err(ConfigError::UnsupportedProtocol)
    }
}

/// The facility a configuration chooses, or the LOCAL0 default.
pub open spec fn chosen_facility(facility: Option<Facility>) -> Facility {
    match facility {
        Some(f) => f,
        None => Facility::LOCAL0,
    }
}

/// The characters a configured header field holds, or the empty default.
pub open spec fn chosen_field(value: Option<String>) -> Seq<char> {
    match value {
        Some(s) => s@,
        None => Seq::<char>::empty(),
    }
}

/// Assembles the format variant a configuration names: the chosen kind
/// carrying whichever of facility, hostname, app name and proc id were
/// given; an omitted option keeps the kind's default. The plain kind
/// carries none of these options.
pub fn build_format(
    kind: MessageFormatKind,
    facility: Option<Facility>,
    hostname: Option<String>,
    app_name: Option<String>,
    proc_id: Option<String>,
) -> (r: MessageFormat)
    ensures
        kind == MessageFormatKind::Plain ==> (r matches MessageFormat::Plain(f) && f.facility
            == Facility::USER),
        kind == MessageFormatKind::Rfc5424 ==> (r matches MessageFormat::Rfc5424(f) && f.facility
            == chosen_facility(facility) && f.hostname@ == chosen_field(hostname) && f.app_name@
            == chosen_field(app_name) && f.proc_id@ == chosen_field(proc_id) && f.bom == false),
        kind == MessageFormatKind::Rfc5425 ==> (r matches MessageFormat::Rfc5425(f) && f.facility
            == chosen_facility(facility) && f.hostname@ == chosen_field(hostname) && f.app_name@
            == chosen_field(app_name) && f.proc_id@ == chosen_field(proc_id)),
{
    match kind {
        MessageFormatKind::Plain => MessageFormat::Plain(plain::Format::new()),
        MessageFormatKind::Rfc5424 => {
            let mut format = rfc5424::Format::new();
            if let Some(f) = facility {
                format = format.facility(f);
            }
            if let Some(h) = hostname {
                format = format.hostname(h);
            }
            if let Some(a) = app_name {
                format = format.app_name(a);
            }
            if let Some(p) = proc_id {
                format = format.proc_id(p);
            }
            MessageFormat::Rfc5424(format)
        },
        MessageFormatKind::Rfc5425 => {
            let mut format = rfc5425::Format::new();
            if let Some(f) = facility {
                format = format.facility(f);
            }
            if let Some(h) = hostname {
                format = format.hostname(h);
            }
            if let Some(a) = app_name {
                format = format.app_name(a);
            }
            if let Some(p) = proc_id {
                format = format.proc_id(p);
            }
            MessageFormat::Rfc5425(format)
        },
    }
}

} // verus!
