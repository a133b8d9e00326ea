//! What the request-tracing middleware records: one span per request and
//! the events emitted when a request starts, finishes or fails.
use vstd::prelude::*;
use vstd::string::*;
use crate::ids::{is_random_uuid, new_random_id};
use crate::text::{decimal, decimal_text, owned};

verus! {

/// Severity of a log event.
#[derive(PartialEq, Eq, Structural, Clone, Copy)]
pub enum Level {
    Info,
    Error,
}

/// One structured log event: a level, a message and named fields, in order.
pub struct LogEvent {
    pub level: Level,
    pub message: String,
    pub fields: Vec<(String, String)>,
}

/// The method of an HTTP request.
pub enum HttpMethod {
    Options,
    Get,
    Post,
    Put,
    Delete,
    Head,
    Trace,
    Connect,
    Patch,
    /// An extension method, by its name.
    Other(String),
}

/// The protocol version of an HTTP request.
pub enum HttpVersion {
    Http09,
    Http10,
    Http11,
    Http2,
    Http3,
    /// Any other version, by its debug rendering.
    Other(String),
}

/// A request header as the middleware sees it.
pub enum HeaderText {
    /// The header is not present.
    Absent,
    /// The header is present but is not visible ASCII text.
    Opaque,
    /// The header is present, with this text.
    Text(String),
}

/// The per-request tracing scope; the status code is filled in when the response is ready.
pub struct RequestSpan {
    pub method: String,
    pub user_agent: String,
    pub target: String,
    pub request_id: u128,
    pub status_code: Option<u16>,
}

pub open spec fn method_name(m: HttpMethod) -> Seq<char> {
    match m {
        HttpMethod::Options => "OPTIONS"@,
        HttpMethod::Get => "GET"@,
        HttpMethod::Post => "POST"@,
        HttpMethod::Put => "PUT"@,
        HttpMethod::Delete => "DELETE"@,
        HttpMethod::Head => "HEAD"@,
        HttpMethod::Trace => "TRACE"@,
        HttpMethod::Connect => "CONNECT"@,
        HttpMethod::Patch => "PATCH"@,
        HttpMethod::Other(s) => s@,
    }
}

pub open spec fn flavor_name(v: HttpVersion) -> Seq<char> {
    match v {
        HttpVersion::Http09 => "0.9"@,
        HttpVersion::Http10 => "1.0"@,
        HttpVersion::Http11 => "1.1"@,
        HttpVersion::Http2 => "2.0"@,
        HttpVersion::Http3 => "3.0"@,
        HttpVersion::Other(s) => s@,
    }
}

/// The text of a header, or nothing when it is absent or not text.
pub open spec fn header_or_empty(h: HeaderText) -> Seq<char> {
    match h {
        HeaderText::Text(s) => s@,
        _ => Seq::empty(),
    }
}

/// `<n> ms`.
pub open spec fn latency_text(ms: nat) -> Seq<char> {
    decimal(ms) + " ms"@
}

/// The name of a request method, as it appears on the wire.
pub fn http_method_str(method: &HttpMethod) -> (r: String)
    ensures
        r@ == method_name(*method),
{
    proof {
        reveal_strlit("OPTIONS");
        reveal_strlit("GET");
        reveal_strlit("POST");
        reveal_strlit("PUT");
        reveal_strlit("DELETE");
        reveal_strlit("HEAD");
        reveal_strlit("TRACE");
        reveal_strlit("CONNECT");
        reveal_strlit("PATCH");
    }
    match method {
        HttpMethod::Options => owned("OPTIONS"),
        HttpMethod::Get => owned("GET"),
        HttpMethod::Post => owned("POST"),
        HttpMethod::Put => owned("PUT"),
        HttpMethod::Delete => owned("DELETE"),
        HttpMethod::Head => owned("HEAD"),
        HttpMethod::Trace => owned("TRACE"),
        HttpMethod::Connect => owned("CONNECT"),
        HttpMethod::Patch => owned("PATCH"),
        HttpMethod::Other(s) => s.clone(),
    }
}

/// The protocol version as a short number, `1.1` for HTTP/1.1.
pub fn http_flavor(version: &HttpVersion) -> (r: String)
    ensures
        r@ == flavor_name(*version),
{
    proof {
        reveal_strlit("0.9");
        reveal_strlit("1.0");
        reveal_strlit("1.1");
        reveal_strlit("2.0");
        reveal_strlit("3.0");
    }
    match version {
        HttpVersion::Http09 => owned("0.9"),
        HttpVersion::Http10 => owned("1.0"),
        HttpVersion::Http11 => owned("1.1"),
        HttpVersion::Http2 => owned("2.0"),
        HttpVersion::Http3 => owned("3.0"),
        HttpVersion::Other(s) => s.clone(),
    }
}

fn latency_field(latency_ms: u128) -> (r: (String, String))
    ensures
        r.0@ == "latency"@,
        r.1@ == latency_text(latency_ms as nat),
{
    proof {
        reveal_strlit("latency");
        reveal_strlit(" ms");
    }
    (owned("latency"), decimal_text(latency_ms).concat(" ms"))
}

/// Opens the tracing scope of a request.
#[derive(Clone, Copy)]
pub struct AxumMakeSpan();

impl AxumMakeSpan {
    /// A span for a request with this method, `User-Agent` header and path with query;
    /// a header that is absent or not text, or a missing path, is recorded as empty.
    /// The request gets a fresh random identifier and no status code yet.
    pub fn make_span(
        &mut self,
        method: &HttpMethod,
        user_agent: &HeaderText,
        target: &Option<String>,
    ) -> (r: RequestSpan)
        ensures
            r.method@ == method_name(*method),
            r.user_agent@ == header_or_empty(*user_agent),
            r.target@ == (match target {
                Some(t) => t@,
                None => Seq::empty(),
            }),
            is_random_uuid(r.request_id),
            r.status_code is None,
    {
        let user_agent = match user_agent {
            HeaderText::Text(s) => s.clone(),
            _ => String::new(),
        };
        let target = match target {
            Some(t) => t.clone(),
            None => String::new(),
        };
        RequestSpan {
            method: http_method_str(method),
            user_agent,
            target,
            request_id: new_random_id(),
            status_code: None,
        }
    }
}

/// Emits the event that a request has started.
#[derive(Clone, Copy)]
pub struct AxumOnRequest;

impl AxumOnRequest {
    pub fn new() -> (r: Self) {
        AxumOnRequest
    }

    /// An informational event "started processing request", with no fields.
    pub fn on_request(&mut self) -> (r: LogEvent)
        ensures
            r.level == Level::Info,
            r.message@ == "started processing request"@,
            r.fields@.len() == 0,
    {
        proof {
            reveal_strlit("started processing request");
        }
        LogEvent { level: Level::Info, message: owned("started processing request"), fields: Vec::new() }
    }
}

impl RequestSpan {
    /// Fills in the status code of the response; the other fields stay as they were.
    pub fn record_status(&mut self, status: u16)
        ensures
            final(self).status_code == Some(status),
            final(self).method == old(self).method,
            final(self).user_agent == old(self).user_agent,
            final(self).target == old(self).target,
            final(self).request_id == old(self).request_id,
    {
        self.status_code = Some(status);
    }
}

/// Emits the event that a request has finished with a response.
#[derive(Clone, Copy)]
pub struct AxumOnResponse;

impl AxumOnResponse {
    /// An informational event "finished processing request" whose one field, `latency`,
    /// reads `<latency_ms> ms`.
    pub fn on_response(self, latency_ms: u128) -> (r: LogEvent)
        ensures
            r.level == Level::Info,
            r.message@ == "finished processing request"@,
            r.fields@.len() == 1,
            r.fields@[0].0@ == "latency"@,
            r.fields@[0].1@ == latency_text(latency_ms as nat),
    {
        proof {
            reveal_strlit("finished processing request");
        }
        let mut fields = Vec::new();
        fields.push(latency_field(latency_ms));
        LogEvent { level: Level::Info, message: owned("finished processing request"), fields }
    }
}

/// Emits the event that the transport reported a failure instead of a response.
#[derive(Clone, Copy)]
pub struct AxumOnFailure;

impl AxumOnFailure {
    /// An error event "response failed" with two fields: `classification`, the failure
    /// as given, then `latency`, reading `<latency_ms> ms`.
    pub fn on_failure(&mut self, classification: &String, latency_ms: u128) -> (r: LogEvent)
        ensures
            r.level == Level::Error,
            r.message@ == "response failed"@,
            r.fields@.len() == 2,
            r.fields@[0].0@ == "classification"@,
            r.fields@[0].1@ == classification@,
            r.fields@[1].0@ == "latency"@,
            r.fields@[1].1@ == latency_text(latency_ms as nat),
    {
        proof {
            reveal_strlit("response failed");
            reveal_strlit("classification");
        }
        let mut fields = Vec::new();
        fields.push((owned("classification"), classification.clone()));
        fields.push(latency_field(latency_ms));
        LogEvent { level: Level::Error, message: owned("response failed"), fields }
    }
}

} // verus!
