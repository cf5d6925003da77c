use vstd::prelude::*;
use vstd::string::*;
use crate::commands::NAMESPACE;

verus! {

/// Server address used when none is configured.
pub const DEFAULT_SERVER_ADDRESS: &'static str = "http://localhost:7233";

/// Tracing filter used when none is configured.
pub const DEFAULT_TRACING_FILTER: &'static str = "temporal_sdk_core=INFO";

/// Identity the test client reports to the server.
pub const CLIENT_IDENTITY: &'static str = "integ_tester";

/// Worker build identifier the test client reports to the server.
pub const WORKER_BINARY_ID: &'static str = "fakebinaryid";

/// Client name the test client reports to the server.
pub const CLIENT_NAME: &'static str = "temporal-core";

/// Client version the test client reports to the server.
pub const CLIENT_VERSION: &'static str = "0.1.0";

#[verifier::external_type_specification]
#[verifier::external_body]
pub struct ExUrl(url::Url);

#[verifier::external_type_specification]
#[verifier::external_body]
pub struct ExParseError(url::ParseError);

/// Whether `url::Url::parse` accepts the text as an absolute URL.
pub uninterp spec fn url_parses(s: Seq<char>) -> bool;

/// Relies on `url::Url::parse`: it succeeds exactly on the texts that hold an absolute
/// URL, which depends on the text alone.
#[verifier::external_body]
fn parse_url(s: &str) -> (r: Result<url::Url, url::ParseError>)
    ensures
        r.is_ok() == url_parses(s@),
{
    url::Url::parse(s)
}

/// Why a set of engine options could not be built.
#[derive(Clone, Copy, Debug, PartialEq, Eq, Structural)]
pub enum OptionsError {
    /// The server address is not an absolute URL.
    InvalidServerUrl,
    /// The metrics collector address is not an absolute URL.
    InvalidOtelUrl,
    /// The metrics export port is not a decimal number in `0..=65535`.
    InvalidPrometheusPort,
}

/// How to reach the server.
#[derive(Debug)]
pub struct ServerGatewayOptions {
    pub namespace: String,
    pub identity: String,
    pub worker_binary_id: String,
    pub target_url: url::Url,
    pub client_name: String,
    pub client_version: String,
}

/// An IPv4 address and port to bind.
#[derive(Clone, Copy, Debug, PartialEq, Eq)]
pub struct BindAddress {
    pub ip: [u8; 4],
    pub port: u16,
}

/// The most detailed log level forwarded from the engine to its host.
#[derive(Clone, Copy, Debug, PartialEq, Eq, Structural)]
pub enum LogForwardingLevel {
    Off,
    Error,
    Warn,
    Info,
    Debug,
    Trace,
}

/// Where the engine sends traces and metrics.
#[derive(Debug)]
pub struct TelemetryOptions {
    pub otel_collector_url: Option<url::Url>,
    pub prometheus_export_bind_address: Option<BindAddress>,
    pub tracing_filter: String,
    pub log_forwarding_level: LogForwardingLevel,
}

/// Everything an engine instance is created with.
#[derive(Debug)]
pub struct CoreInitOptions {
    pub gateway_opts: ServerGatewayOptions,
    pub telemetry_opts: TelemetryOptions,
}

pub open spec fn is_digit(c: char) -> bool {
    '0' <= c && c <= '9'
}

/// The number that a run of decimal digits spells.
pub open spec fn digits_value(d: Seq<char>) -> nat
    decreases d.len(),
{
    if d.len() == 0 {
        0
    } else {
        digits_value(d.drop_last()) * 10 + (d.last() as u32 - '0' as u32) as nat
    }
}

/// The digits of an unsigned number, after an optional leading `+`.
pub open spec fn unsigned_digits(s: Seq<char>) -> Seq<char> {
    if s.len() > 0 && s[0] == '+' {
        s.drop_first()
    } else {
        s
    }
}

/// The port that `s` spells: an optional `+`, then at least one decimal digit, and a
/// value of at most `u16::MAX`.
pub open spec fn port_of(s: Seq<char>) -> Option<u16> {
    let d = unsigned_digits(s);
    if d.len() > 0 && (forall|i: int| 0 <= i < d.len() ==> is_digit(#[trigger] d[i]))
        && digits_value(d) <= u16::MAX {
        Some(digits_value(d) as u16)
    } else {
        None
    }
}

/// Reads a port number written in decimal.
pub fn parse_port(s: &str) -> (r: Option<u16>)
    ensures
        r == port_of(s@),
{
    let len = s.unicode_len();
    let mut start: usize = 0;
    if len > 0 && s.get_char(0) == '+' {
        start = 1;
    }
    let ghost d = unsigned_digits(s@);
    assert(d =~= s@.subrange(start as int, len as int));
    if start >= len {
        return None;
    }
    let mut acc: u32 = 0;
    let mut i: usize = start;
    while i < len
        invariant
            start <= i <= len,
            len == s@.len(),
            d =~= s@.subrange(start as int, len as int),
            d == unsigned_digits(s@),
            acc as int == if digits_value(s@.subrange(start as int, i as int)) < 65536 {
                digits_value(s@.subrange(start as int, i as int)) as int
            } else {
                65536
            },
            forall|j: int| start <= j < i ==> is_digit(#[trigger] s@[j]),
        decreases len - i,
    {
        let c = s.get_char(i);
        if !('0' <= c && c <= '9') {
            assert(!is_digit(d[i - start]));
            return None;
        }
        let ghost prev = s@.subrange(start as int, i as int);
        let ghost next = s@.subrange(start as int, i + 1);
        assert(next.drop_last() =~= prev);
        assert(next.last() == c);
        acc = acc * 10 + (c as u32 - '0' as u32);
        if acc > 65536 {
            acc = 65536;
        }
        i = i + 1;
    }
    assert(forall|j: int| 0 <= j < d.len() ==> #[trigger] d[j] == s@[j + start]);
    assert(forall|j: int| 0 <= j < d.len() ==> is_digit(#[trigger] d[j]));
    if acc > 65535 {
        None
    } else {
        Some(acc as u16)
    }
}

/// The server address in force: the configured one, else the default.
pub open spec fn server_address(configured: Option<String>) -> Seq<char> {
    match configured {
        Some(a) => a@,
        None => DEFAULT_SERVER_ADDRESS@,
    }
}

/// Connection options for the test server at `address`, or at the default address
/// when none is configured.
pub fn get_integ_server_options(address: Option<String>) -> (r: Result<
    ServerGatewayOptions,
    OptionsError,
>)
    ensures
        r.is_ok() == url_parses(server_address(address)),
        r matches Err(e) ==> e == OptionsError::InvalidServerUrl,
        r matches Ok(o) ==> {
            &&& o.namespace@ == NAMESPACE@
            &&& o.identity@ == CLIENT_IDENTITY@
            &&& o.worker_binary_id@ == WORKER_BINARY_ID@
            &&& o.client_name@ == CLIENT_NAME@
            &&& o.client_version@ == CLIENT_VERSION@
        },
{
    let addr: String = match address {
        Some(a) => a,
        None => DEFAULT_SERVER_ADDRESS.to_owned(),
    };
    match parse_url(addr.as_str()) {
        Ok(target_url) => Ok(
            ServerGatewayOptions {
                namespace: NAMESPACE.to_owned(),
                identity: CLIENT_IDENTITY.to_owned(),
                worker_binary_id: WORKER_BINARY_ID.to_owned(),
                target_url,
                client_name: CLIENT_NAME.to_owned(),
                client_version: CLIENT_VERSION.to_owned(),
            },
        ),
        Err(_) => Err(OptionsError::InvalidServerUrl),
    }
}

/// The metrics export address for a configured port text, if it reads as a port.
pub open spec fn prometheus_address(port_text: Seq<char>) -> BindAddress {
    BindAddress { ip: [127u8, 0u8, 0u8, 1u8], port: port_of(port_text).unwrap() }
}

/// A URL is configured and does not parse.
pub open spec fn url_rejected(configured: Option<String>) -> bool {
    match configured {
        Some(u) => !url_parses(u@),
        None => false,
    }
}

/// A port is configured and does not read as one.
pub open spec fn port_rejected(configured: Option<String>) -> bool {
    match configured {
        Some(p) => port_of(p@) is None,
        None => false,
    }
}

/// Telemetry options: a metrics collector URL and a metrics export port when
/// configured, and the configured tracing filter or the default one. Log forwarding
/// is off.
pub fn get_integ_telem_options(
    otel_url: Option<String>,
    prom_port: Option<String>,
    tracing_filter: Option<String>,
) -> (r: Result<TelemetryOptions, OptionsError>)
    ensures
        r == Err::<TelemetryOptions, OptionsError>(OptionsError::InvalidOtelUrl) <==> url_rejected(
            otel_url,
        ),
        r == Err::<TelemetryOptions, OptionsError>(OptionsError::InvalidPrometheusPort) <==> (
        !url_rejected(otel_url) && port_rejected(prom_port)),
        r matches Err(e) ==> e != OptionsError::InvalidServerUrl,
        r matches Ok(o) ==> {
            &&& o.otel_collector_url.is_some() == otel_url.is_some()
            &&& o.prometheus_export_bind_address == match prom_port {
                Some(p) => Some(prometheus_address(p@)),
                None => None,
            }
            &&& o.tracing_filter@ == match tracing_filter {
                Some(f) => f@,
                None => DEFAULT_TRACING_FILTER@,
            }
            &&& o.log_forwarding_level == LogForwardingLevel::Off
        },
{
    let otel_collector_url = match otel_url {
        Some(u) => match parse_url(u.as_str()) {
            Ok(parsed) => Some(parsed),
            Err(_) => {
                return Err(OptionsError::InvalidOtelUrl);
            },
        },
        None => None,
    };
    let prometheus_export_bind_address = match prom_port {
        Some(p) => match parse_port(p.as_str()) {
            Some(port) => Some(BindAddress { ip: [127u8, 0u8, 0u8, 1u8], port }),
            None => {
                return Err(OptionsError::InvalidPrometheusPort);
            },
        },
        None => None,
    };
    let tracing_filter = match tracing_filter {
        Some(f) => f,
        None => DEFAULT_TRACING_FILTER.to_owned(),
    };
    Ok(
        TelemetryOptions {
            otel_collector_url,
            prometheus_export_bind_address,
            tracing_filter,
            log_forwarding_level: LogForwardingLevel::Off,
        },
    )
}

} // verus!
