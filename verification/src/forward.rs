use vstd::prelude::*;
use vstd::string::StringExecFns;
use crate::method::{is_supported_method, method_of, Method};
use crate::text::upper_seq;

verus! {

/// `serde_json::Value` is carried through the forwarder without being read.
#[verifier::external_type_specification]
#[verifier::external_body]
pub struct ExValue(serde_json::Value);

/// Whether a text is a JSON document that `serde_json` accepts.
pub uninterp spec fn is_json(s: Seq<char>) -> bool;

/// The value `serde_json` parses a JSON document to; it depends on the text
/// alone.
pub uninterp spec fn json_value_of(s: Seq<char>) -> serde_json::Value;

/// Relies on `serde_json::from_str::<Value>`: it returns `Ok` exactly when
/// the text is a JSON document it accepts, and then the value it parsed.
#[verifier::external_body]
fn try_parse_json(text: &str) -> (r: Option<serde_json::Value>)
    ensures
        r is Some <==> is_json(text@),
        r matches Some(v) ==> v == json_value_of(text@),
{
    serde_json::from_str::<serde_json::Value>(text).ok()
}

/// Why a forwarded request failed.
#[derive(Debug)]
pub enum ForwardError {
    /// The caller named a method outside the supported set; the string is
    /// the method, ASCII-upper-cased.
    UnsupportedMethod(String),
    /// The request could not be sent; the string describes the transport
    /// failure.
    Network(String),
    /// The response body could not be read; the string describes the
    /// failure.
    BodyRead(String),
}

/// The message a forwarder error surfaces to the caller.
pub open spec fn error_message_of(e: ForwardError) -> Seq<char> {
    match e {
        ForwardError::UnsupportedMethod(m) => "Unsupported method: "@ + m@,
        ForwardError::Network(d) => "request error: "@ + d@,
        ForwardError::BodyRead(d) => "read body error: "@ + d@,
    }
}

impl ForwardError {
    /// The message surfaced to the caller.
    pub fn message(&self) -> (r: String)
        ensures
            r@ == error_message_of(*self),
    {
        match self {
            ForwardError::UnsupportedMethod(m) => String::from_str("Unsupported method: ").concat(m.as_str()),
            ForwardError::Network(d) => String::from_str("request error: ").concat(d.as_str()),
            ForwardError::BodyRead(d) => String::from_str("read body error: ").concat(d.as_str()),
        }
    }
}

/// An outgoing request the shell may now perform: a supported method, the
/// target URL, and the JSON payload to attach, if any.
#[derive(Debug)]
pub struct RequestPlan {
    pub method: Method,
    pub url: String,
    pub body: Option<serde_json::Value>,
}

/// Validates a request from the front end. A plan comes back exactly when
/// the method names one of the supported methods (ignoring ASCII case); the
/// plan keeps the URL and attaches the payload exactly when one was given,
/// whatever the method. A rejection reports the method upper-cased. No
/// request is performed here, so a rejected method causes no network
/// traffic.
pub fn plan_request(method: &str, url: String, body: Option<serde_json::Value>) -> (r: Result<
    RequestPlan,
    ForwardError,
>)
    ensures
        r is Ok <==> is_supported_method(method@),
        r matches Ok(p) ==> {
            &&& Some(p.method) == method_of(method@)
            &&& p.url == url
            &&& p.body == body
        },
        r matches Err(e) ==> {
            &&& e matches ForwardError::UnsupportedMethod(m) && m@ == upper_seq(method@)
            &&& error_message_of(e) == "Unsupported method: "@ + upper_seq(method@)
        },
{
    match crate::method::parse_method(method) {
        Some(m) => Ok(RequestPlan { method: m, url, body }),
        None => Err(ForwardError::UnsupportedMethod(crate::text::to_ascii_upper(method))),
    }
}

/// What a completed forward hands back: the response parsed as JSON, or,
/// where the response was not JSON, its raw text.
#[derive(Debug)]
pub enum ForwardOutcome {
    Parsed(serde_json::Value),
    Raw(String),
}

/// Wraps a parse attempt: the parsed value when there is one, otherwise the
/// raw text, never a failure.
pub fn outcome_of_parse(parsed: Option<serde_json::Value>, text: String) -> (r: ForwardOutcome)
    ensures
        parsed matches Some(v) ==> r == ForwardOutcome::Parsed(v),
        parsed is None ==> r == ForwardOutcome::Raw(text),
{
    match parsed {
        Some(v) => ForwardOutcome::Parsed(v),
        None => ForwardOutcome::Raw(text),
    }
}

/// Interprets a response body: a JSON document comes back as the value the
/// parser produced, any other text comes back unchanged as a raw string.
/// Never a failure.
pub fn interpret_response(text: String) -> (r: ForwardOutcome)
    ensures
        r is Parsed <==> is_json(text@),
        is_json(text@) ==> r == ForwardOutcome::Parsed(json_value_of(text@)),
        !is_json(text@) ==> r == ForwardOutcome::Raw(text),
{
    let parsed = try_parse_json(text.as_str());
    outcome_of_parse(parsed, text)
}

/// What the transport reported once a planned request was performed.
#[derive(Debug)]
pub enum TransportEvent {
    /// The response body, read in full.
    Response(String),
    /// The request could not be sent; the string describes the failure.
    SendFailed(String),
    /// The response came but its body could not be read.
    ReadFailed(String),
}

/// Turns the transport's report into the forwarder's result: a response
/// body is interpreted (parsed JSON, or raw text) and is never an error;
/// a transport failure becomes the matching forwarder error.
pub fn conclude(event: TransportEvent) -> (r: Result<ForwardOutcome, ForwardError>)
    ensures
        event matches TransportEvent::Response(t) ==> {
            &&& r is Ok
            &&& (r->Ok_0 is Parsed <==> is_json(t@))
            &&& (is_json(t@) ==> r->Ok_0 == ForwardOutcome::Parsed(json_value_of(t@)))
            &&& (!is_json(t@) ==> r->Ok_0 == ForwardOutcome::Raw(t))
        },
        event matches TransportEvent::SendFailed(m) ==> r == Err::<ForwardOutcome, ForwardError>(
            ForwardError::Network(m),
        ),
        event matches TransportEvent::ReadFailed(m) ==> r == Err::<ForwardOutcome, ForwardError>(
            ForwardError::BodyRead(m),
        ),
{
    match event {
        TransportEvent::Response(text) => Ok(interpret_response(text)),
        TransportEvent::SendFailed(m) => Err(ForwardError::Network(m)),
        TransportEvent::ReadFailed(m) => Err(ForwardError::BodyRead(m)),
    }
}

} // verus!
