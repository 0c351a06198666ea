//! Gemini clients: the message shapes, the Live client's settings, and the decisions of
//! the streaming HTTP client.
use vstd::prelude::*;

use crate::breaker::{breaker_open_message, check_spec, failure_fits, failure_spec, fresh_breaker, success_spec, CircuitBreaker};
use crate::config::ServiceConfig;
use crate::error::InternalVoiceError;
use crate::live::{live_model_name, live_ws_url, redact_key};
use crate::text::{push_str, replace_spec};

verus! {

/// One part of a request turn: text or inline data.
#[derive(Debug)]
pub struct Part<'a> {
    pub text: Option<&'a str>,
    pub inline_data: Option<Blob<'a>>,
}

/// Inline binary data, base64-encoded, with its MIME type.
#[derive(Debug)]
pub struct Blob<'a> {
    pub mime_type: &'a str,
    pub data: &'a str,
}

/// A model turn in a response.
#[derive(Debug, Clone)]
pub struct ResponseContent {
    pub parts: Vec<ResponsePart>,
}

/// One part of a model turn: text or inline data.
#[derive(Debug, Clone)]
pub struct ResponsePart {
    pub text: Option<String>,
    pub inline_data: Option<ResponseBlob>,
}

/// Inline data in a response.
#[derive(Debug, Clone)]
pub struct ResponseBlob {
    pub mime_type: String,
    pub data: String,
}

} // verus!

verus! {

/// Settings of the Gemini Live (WebSocket) client.
pub struct GeminiLiveClient {
    api_key: String,
    model: String,
    ws_url_template: String,
}

impl View for GeminiLiveClient {
    /// The API key, the model and the endpoint template.
    type V = (Seq<char>, Seq<char>, Seq<char>);

    closed spec fn view(&self) -> (Seq<char>, Seq<char>, Seq<char>) {
        (self.api_key@, self.model@, self.ws_url_template@)
    }
}

impl GeminiLiveClient {
    /// A client for the configured Live model and endpoint.
    pub fn new(api_key: String, service: &ServiceConfig) -> (c: GeminiLiveClient)
        ensures
            c@ == (api_key@, service.gemini_live_model@, service.gemini_live_ws_url@),
    {
        GeminiLiveClient {
            api_key,
            model: service.gemini_live_model.clone(),
            ws_url_template: service.gemini_live_ws_url.clone(),
        }
    }

    /// The WebSocket endpoint: the template with `{key}` replaced by the API key.
    pub fn endpoint(&self) -> (url: String)
        ensures
            url@ == replace_spec(self@.2, "{key}"@, self@.0),
    {
        live_ws_url(self.ws_url_template.as_str(), self.api_key.as_str())
    }

    /// The endpoint with the API key replaced by `<redacted>`, for error messages.
    pub fn redacted_endpoint(&self) -> (url: String)
        ensures
            url@ == replace_spec(replace_spec(self@.2, "{key}"@, self@.0), self@.0, "<redacted>"@),
    {
        let url = self.endpoint();
        redact_key(url.as_str(), self.api_key.as_str())
    }

    /// The model named in the setup message: `models/{model}`.
    pub fn setup_model(&self) -> (m: String)
        ensures
            m@ == "models/"@ + self@.1,
    {
        live_model_name(self.model.as_str())
    }
}

/// The requests-per-minute quota of the rate limiter; zero is a configuration error.
pub fn request_quota(requests_per_minute: u32) -> (r: Result<u32, InternalVoiceError>)
    ensures
        requests_per_minute > 0 ==> r == Ok::<u32, InternalVoiceError>(requests_per_minute),
        requests_per_minute == 0 ==> (r matches Err(InternalVoiceError::Config(m)) && m@
            == "requests_per_minute must be > 0"@),
{
    if requests_per_minute == 0 {
        Err(InternalVoiceError::Config(String::from_str("requests_per_minute must be > 0")))
    } else {
        Ok(requests_per_minute)
    }
}

/// How the streaming endpoint answered.
#[derive(Debug, Clone, Copy, PartialEq, Eq, Structural)]
pub enum StatusClass {
    /// `200 OK`: the event stream follows.
    Accepted,
    /// A `5xx` status.
    ServerError,
    /// Any other status.
    Failed,
}

/// The class of an HTTP status code.
pub fn classify_status(code: u16) -> (c: StatusClass)
    ensures
        500 <= code <= 599 ==> c == StatusClass::ServerError,
        code == 200 ==> c == StatusClass::Accepted,
        !(500 <= code <= 599) && code != 200 ==> c == StatusClass::Failed,
{
    if 500 <= code && code <= 599 {
        StatusClass::ServerError
    } else if code == 200 {
        StatusClass::Accepted
    } else {
        StatusClass::Failed
    }
}

/// The error for a `5xx` answer; `status` is the status as displayed (`503 Service Unavailable`).
pub fn server_error(status: &str) -> (e: InternalVoiceError)
    ensures
        e matches InternalVoiceError::Gemini(m) && m@ == "server returned "@ + status@,
{
    let mut m = String::from_str("server returned ");
    push_str(&mut m, status);
    InternalVoiceError::Gemini(m)
}

/// The error for any other non-`200` answer, with the response body.
pub fn request_failed(status: &str, body: &str) -> (e: InternalVoiceError)
    ensures
        e matches InternalVoiceError::Gemini(m) && m@ == "request failed with "@ + status@ + ": "@ + body@,
{
    let mut m = String::from_str("request failed with ");
    push_str(&mut m, status);
    push_str(&mut m, ": ");
    push_str(&mut m, body);
    InternalVoiceError::Gemini(m)
}

/// The error when the request is not answered within the timeout.
pub fn request_timed_out() -> (e: InternalVoiceError)
    ensures
        e matches InternalVoiceError::Gemini(m) && m@ == "request timed out"@,
{
    InternalVoiceError::Gemini(String::from_str("request timed out"))
}

/// The error when the event stream outlasts the timeout.
pub fn stream_timed_out() -> (e: InternalVoiceError)
    ensures
        e matches InternalVoiceError::Gemini(m) && m@ == "stream timed out"@,
{
    InternalVoiceError::Gemini(String::from_str("stream timed out"))
}

/// The circuit breaker with the limits it was configured with.
pub struct RequestGuard {
    pub breaker: CircuitBreaker,
    pub failure_threshold: u32,
    pub reset_secs: u64,
}

impl RequestGuard {
    /// A closed breaker with the configured threshold and reset time.
    pub fn new(failure_threshold: u32, reset_secs: u64) -> (g: RequestGuard)
        ensures
            g.breaker == fresh_breaker(),
            g.failure_threshold == failure_threshold,
            g.reset_secs == reset_secs,
    {
        RequestGuard { breaker: CircuitBreaker::new(), failure_threshold, reset_secs }
    }

    /// Lets a request through at monotonic time `now` (nanoseconds) unless the breaker is open.
    pub fn ensure_closed(&mut self, now: u64) -> (r: Result<(), InternalVoiceError>)
        ensures
            r is Ok == check_spec(old(self).breaker, now).0,
            final(self).breaker == check_spec(old(self).breaker, now).1,
            final(self).failure_threshold == old(self).failure_threshold,
            final(self).reset_secs == old(self).reset_secs,
            r matches Err(e) ==> (e matches InternalVoiceError::Gemini(m) && m@ == breaker_open_message()),
    {
        self.breaker.ensure_closed(now)
    }

    /// Records a successful request.
    pub fn record_success(&mut self)
        ensures
            final(self).breaker == success_spec(old(self).breaker),
            final(self).failure_threshold == old(self).failure_threshold,
            final(self).reset_secs == old(self).reset_secs,
    {
        self.breaker.record_success();
    }

    /// Records a failed request at monotonic time `now` (nanoseconds).
    pub fn record_failure(&mut self, now: u64)
        requires
            failure_fits(old(self).breaker, now, old(self).failure_threshold, (old(self).reset_secs * 1_000_000_000) as u64),
            old(self).reset_secs * 1_000_000_000 <= u64::MAX,
        ensures
            final(self).breaker == failure_spec(
                old(self).breaker,
                now,
                old(self).failure_threshold,
                (old(self).reset_secs * 1_000_000_000) as u64,
            ),
            final(self).failure_threshold == old(self).failure_threshold,
            final(self).reset_secs == old(self).reset_secs,
    {
        let reset = self.reset_secs * 1_000_000_000;
        self.breaker.record_failure(now, self.failure_threshold, reset);
    }
}

} // verus!
