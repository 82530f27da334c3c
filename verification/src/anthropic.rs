//! Client-side logic of the chat API: credentials, request headers, and
//! response handling for the non-streaming call. The HTTP calls and the
//! socket of the streaming session live with the caller; everything here is
//! pure and verified.

use vstd::prelude::*;
use vstd::string::StringExecFns;

use crate::decode::message_response_from_json;
use crate::decode::spec_message_response;
use crate::events::MessageResponse;
use crate::events::MessageResponseRep;
use crate::events::opt_str_rep;
use crate::http::HttpOutcome;
use crate::http::HttpOutcomeRep;
use crate::json::JsonRep;
use crate::json::JsonValue;
use crate::json::json_doc_of;
use crate::json::parse_json;
use crate::json::spec_json_text;
use crate::text::pairs_rep;
use crate::text::push_pair;

verus! {

/// API credentials: the key, and the API version to ask for if not the
/// default.
#[derive(Debug, Clone)]
pub struct Auth {
    pub api_key: String,
    pub version: Option<String>,
}

/// Model of `Auth`.
pub struct AuthRep {
    pub api_key: Seq<char>,
    pub version: Option<Seq<char>>,
}

impl View for Auth {
    type V = AuthRep;

    open spec fn view(&self) -> AuthRep {
        AuthRep { api_key: self.api_key@, version: opt_str_rep(self.version) }
    }
}

impl Auth {
    /// Credentials with the default API version.
    pub fn new(api_key: &str) -> (a: Self)
        ensures
            a@ == (AuthRep { api_key: api_key@, version: None }),
    {
        Auth { api_key: api_key.to_owned(), version: None }
    }
}

/// The chat-API client: credentials and the endpoint base. The HTTP agent
/// lives with the caller that performs the requests.
#[derive(Debug, Clone)]
pub struct Anthropic {
    pub auth: Auth,
    pub api_url: String,
}

impl Anthropic {
    pub fn new(auth: Auth, api_url: &str) -> (c: Self)
        ensures
            c.auth@ == auth@,
            c.api_url@ == api_url@,
    {
        Anthropic { auth, api_url: api_url.to_owned() }
    }
}

/// Error of a chat-API call.
#[derive(Debug, Clone)]
pub enum Error {
    /// The request timed out.
    TimedOut,
    /// The stream was closed.
    StreamClosed,
    /// An invalid request parameter, with its description.
    InvalidParameter(String),
    /// The streaming session could not be created.
    SseStreamCreation(String),
    /// The response stream ended.
    Eof,
    /// The response stream ended unexpectedly.
    UnexpectedEof,
    /// A line that does not conform to the stream protocol.
    InvalidLine(String),
    /// An invalid stream event.
    InvalidEvent,
    /// An unclassified stream error, with its description.
    Unknown(String),
    /// An error the API returned, as its JSON text.
    ApiError(String),
    /// A transport-level failure outside the API.
    RequestError(String),
    /// A value could not be serialized.
    SerializeError(String),
    /// A response could not be deserialized.
    DeserializeError(String),
    /// A response body could not be read as JSON.
    DeserializeIntoJson(String),
}

/// Model of `Error`.
pub enum ErrorRep {
    TimedOut,
    StreamClosed,
    InvalidParameter(Seq<char>),
    SseStreamCreation(Seq<char>),
    Eof,
    UnexpectedEof,
    InvalidLine(Seq<char>),
    InvalidEvent,
    Unknown(Seq<char>),
    ApiError(Seq<char>),
    RequestError(Seq<char>),
    SerializeError(Seq<char>),
    DeserializeError(Seq<char>),
    DeserializeIntoJson(Seq<char>),
}

impl View for Error {
    type V = ErrorRep;

    open spec fn view(&self) -> ErrorRep {
        match self {
            Error::TimedOut => ErrorRep::TimedOut,
            Error::StreamClosed => ErrorRep::StreamClosed,
            Error::InvalidParameter(s) => ErrorRep::InvalidParameter(s@),
            Error::SseStreamCreation(s) => ErrorRep::SseStreamCreation(s@),
            Error::Eof => ErrorRep::Eof,
            Error::UnexpectedEof => ErrorRep::UnexpectedEof,
            Error::InvalidLine(s) => ErrorRep::InvalidLine(s@),
            Error::InvalidEvent => ErrorRep::InvalidEvent,
            Error::Unknown(s) => ErrorRep::Unknown(s@),
            Error::ApiError(s) => ErrorRep::ApiError(s@),
            Error::RequestError(s) => ErrorRep::RequestError(s@),
            Error::SerializeError(s) => ErrorRep::SerializeError(s@),
            Error::DeserializeError(s) => ErrorRep::DeserializeError(s@),
            Error::DeserializeIntoJson(s) => ErrorRep::DeserializeIntoJson(s@),
        }
    }
}

/// The display text of an error.
pub open spec fn spec_error_message(e: ErrorRep) -> Seq<char> {
    match e {
        ErrorRep::TimedOut => "timed out"@,
        ErrorRep::StreamClosed => "stream closed"@,
        ErrorRep::InvalidParameter(s) => "invalid parameter: "@ + s,
        ErrorRep::SseStreamCreation(s) => "sse stream creation error: "@ + s,
        ErrorRep::Eof => "eof"@,
        ErrorRep::UnexpectedEof => "unexpected eof"@,
        ErrorRep::InvalidLine(s) => "invalid line: "@ + s,
        ErrorRep::InvalidEvent => "invalid event"@,
        ErrorRep::Unknown(s) => "sse stream error: "@ + s,
        ErrorRep::ApiError(s) => "API Error: "@ + s,
        ErrorRep::RequestError(s) => "Request Error: "@ + s,
        ErrorRep::SerializeError(s) => "serialize error: "@ + s,
        ErrorRep::DeserializeError(s) => "deserialize error: "@ + s,
        ErrorRep::DeserializeIntoJson(s) => "deserialize into error: "@ + s,
    }
}

impl Error {
    /// The error as display text.
    pub fn message(&self) -> (out: String)
        ensures
            out@ == spec_error_message(self@),
    {
        let mut out = match self {
            Error::TimedOut => String::from_str("timed out"),
            Error::StreamClosed => String::from_str("stream closed"),
            Error::InvalidParameter(_) => String::from_str("invalid parameter: "),
            Error::SseStreamCreation(_) => String::from_str("sse stream creation error: "),
            Error::Eof => String::from_str("eof"),
            Error::UnexpectedEof => String::from_str("unexpected eof"),
            Error::InvalidLine(_) => String::from_str("invalid line: "),
            Error::InvalidEvent => String::from_str("invalid event"),
            Error::Unknown(_) => String::from_str("sse stream error: "),
            Error::ApiError(_) => String::from_str("API Error: "),
            Error::RequestError(_) => String::from_str("Request Error: "),
            Error::SerializeError(_) => String::from_str("serialize error: "),
            Error::DeserializeError(_) => String::from_str("deserialize error: "),
            Error::DeserializeIntoJson(_) => String::from_str("deserialize into error: "),
        };
        match self {
            Error::InvalidParameter(s) => out.append(s.as_str()),
            Error::SseStreamCreation(s) => out.append(s.as_str()),
            Error::InvalidLine(s) => out.append(s.as_str()),
            Error::Unknown(s) => out.append(s.as_str()),
            Error::ApiError(s) => out.append(s.as_str()),
            Error::RequestError(s) => out.append(s.as_str()),
            Error::SerializeError(s) => out.append(s.as_str()),
            Error::DeserializeError(s) => out.append(s.as_str()),
            Error::DeserializeIntoJson(s) => out.append(s.as_str()),
            _ => {},
        }
        out
    }
}

/// The default API version asked for when the credentials name none.
pub open spec fn spec_default_version() -> Seq<char> {
    "2023-06-01"@
}

/// The headers of the non-streaming message call.
pub open spec fn spec_post_headers(a: AuthRep) -> Seq<(Seq<char>, Seq<char>)> {
    seq![
        (
            "anthropic-version"@,
            match a.version {
                Some(v) => v,
                None => spec_default_version(),
            },
        ),
        ("content-type"@, "application/json"@),
        ("x-api-key"@, a.api_key),
    ]
}

/// Build the headers of the non-streaming message call.
pub fn post_headers(auth: &Auth) -> (out: Vec<(String, String)>)
    ensures
        pairs_rep(out@) == spec_post_headers(auth@),
{
    let mut out: Vec<(String, String)> = Vec::new();
    let version = match &auth.version {
        Some(v) => v.clone(),
        None => String::from_str("2023-06-01"),
    };
    push_pair(&mut out, String::from_str("anthropic-version"), version);
    push_pair(
        &mut out,
        String::from_str("content-type"),
        String::from_str("application/json"),
    );
    push_pair(&mut out, String::from_str("x-api-key"), auth.api_key.clone());
    proof {
        assert(pairs_rep(out@) =~= spec_post_headers(auth@));
    }
    out
}

/// The headers of the streaming message call: the fixed protocol version,
/// the beta marker of the streaming message shape, and the credentials.
pub open spec fn spec_stream_headers(a: AuthRep) -> Seq<(Seq<char>, Seq<char>)> {
    seq![
        ("anthropic-version"@, "2023-06-01"@),
        ("anthropic-beta"@, "messages-2023-12-15"@),
        ("content-type"@, "application/json"@),
        ("x-api-key"@, a.api_key),
    ]
}

/// Build the headers of the streaming message call.
pub fn stream_headers(auth: &Auth) -> (out: Vec<(String, String)>)
    ensures
        pairs_rep(out@) == spec_stream_headers(auth@),
{
    let mut out: Vec<(String, String)> = Vec::new();
    push_pair(
        &mut out,
        String::from_str("anthropic-version"),
        String::from_str("2023-06-01"),
    );
    push_pair(
        &mut out,
        String::from_str("anthropic-beta"),
        String::from_str("messages-2023-12-15"),
    );
    push_pair(
        &mut out,
        String::from_str("content-type"),
        String::from_str("application/json"),
    );
    push_pair(&mut out, String::from_str("x-api-key"), auth.api_key.clone());
    proof {
        assert(pairs_rep(out@) =~= spec_stream_headers(auth@));
    }
    out
}

/// What response handling yields: the parsed body on success, the API's own
/// error body re-rendered as JSON text on an error status, and the transport
/// note otherwise. A body that is not JSON is refused as unreadable.
pub open spec fn spec_deal_response(o: HttpOutcomeRep) -> Result<JsonRep, ErrorRep> {
    match o {
        HttpOutcomeRep::Success { body } => match json_doc_of(body) {
            Option::Some(d) => Ok(d),
            Option::None => Err(ErrorRep::DeserializeIntoJson(body)),
        },
        HttpOutcomeRep::Status { code, body } => match json_doc_of(body) {
            Option::Some(d) => Err(ErrorRep::ApiError(spec_json_text(d))),
            Option::None => Err(ErrorRep::DeserializeIntoJson(body)),
        },
        HttpOutcomeRep::Transport { note } => Err(ErrorRep::RequestError(note)),
    }
}

/// Handle one request's outcome.
pub fn deal_response(outcome: HttpOutcome) -> (r: Result<JsonValue, Error>)
    ensures
        r matches Ok(v) ==> spec_deal_response(outcome@) == Ok::<JsonRep, ErrorRep>(v@),
        r matches Err(e) ==> spec_deal_response(outcome@) == Err::<JsonRep, ErrorRep>(e@),
{
    match outcome {
        HttpOutcome::Success { body } => match parse_json(body.as_str()) {
            Some(d) => Ok(d),
            None => Err(Error::DeserializeIntoJson(body)),
        },
        HttpOutcome::Status { code: _, body } => match parse_json(body.as_str()) {
            Some(d) => Err(Error::ApiError(d.to_text())),
            None => Err(Error::DeserializeIntoJson(body)),
        },
        HttpOutcome::Transport { note } => Err(Error::RequestError(note)),
    }
}

/// What the non-streaming message call returns for a request outcome: the
/// decoded response where the body is a response document, and otherwise the
/// error of the stage that refused it.
pub open spec fn spec_message_create_response(o: HttpOutcomeRep) -> Result<
    MessageResponseRep,
    ErrorRep,
> {
    match spec_deal_response(o) {
        Result::Ok(d) => match spec_message_response(d) {
            Option::Some(m) => Ok(m),
            Option::None => Err(ErrorRep::DeserializeError(spec_json_text(d))),
        },
        Result::Err(e) => Err(e),
    }
}

/// Decode the outcome of the non-streaming message call.
pub fn message_create_response(outcome: HttpOutcome) -> (r: Result<MessageResponse, Error>)
    ensures
        r matches Ok(m) ==> spec_message_create_response(outcome@) == Ok::<
            MessageResponseRep,
            ErrorRep,
        >(m@),
        r matches Err(e) ==> spec_message_create_response(outcome@) == Err::<
            MessageResponseRep,
            ErrorRep,
        >(e@),
{
    match deal_response(outcome) {
        Ok(d) => match message_response_from_json(&d) {
            Some(m) => Ok(m),
            None => Err(Error::DeserializeError(d.to_text())),
        },
        Err(e) => Err(e),
    }
}

} // verus!
