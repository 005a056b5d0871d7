//! HTTP requests as the runtime describes them, and the retry rule a
//! client follows between attempts.

use vstd::prelude::*;
use crate::text::owned;

verus! {

#[derive(Debug, Clone, PartialEq, Eq)]
pub struct HttpHeader {
    pub name: String,
    pub value: String,
}

/// How often a request is tried again.
#[derive(Debug, Clone, Copy, PartialEq, Eq, Structural)]
pub struct HttpRetryPolicy {
    pub max_retries: u32,
    pub retry_on_5xx: bool,
}

impl Default for HttpRetryPolicy {
    /// No retries; a 5xx answer would be retried if retries were allowed.
    fn default() -> (p: HttpRetryPolicy)
        ensures
            p.max_retries == 0,
            p.retry_on_5xx,
    {
        HttpRetryPolicy { max_retries: 0, retry_on_5xx: true }
    }
}

#[derive(Debug, Clone, PartialEq, Eq)]
pub struct HttpRequest {
    pub method: String,
    pub url: String,
    pub headers: Vec<HttpHeader>,
    pub body: Option<String>,
    pub timeout_ms: u64,
    pub retry: HttpRetryPolicy,
}

/// Timeout of a new request.
pub const DEFAULT_TIMEOUT_MS: u64 = 30_000;

impl HttpRequest {
    /// A `GET` of `url` with no headers or body, the default timeout and
    /// no retries.
    pub fn get(url: String) -> (r: HttpRequest)
        ensures
            r.method@ == "GET"@,
            r.url == url,
            r.headers@.len() == 0,
            r.body is None,
            r.timeout_ms == DEFAULT_TIMEOUT_MS,
            r.retry == (HttpRetryPolicy { max_retries: 0, retry_on_5xx: true }),
    {
        HttpRequest {
            method: owned("GET"),
            url,
            headers: Vec::new(),
            body: None,
            timeout_ms: DEFAULT_TIMEOUT_MS,
            retry: HttpRetryPolicy::default(),
        }
    }

    /// A `POST` of a JSON body to `url`, declaring its content type.
    pub fn post_json(url: String, body: String) -> (r: HttpRequest)
        ensures
            r.method@ == "POST"@,
            r.url == url,
            r.headers@.len() == 1,
            r.headers@[0].name@ == "content-type"@,
            r.headers@[0].value@ == "application/json"@,
            r.body == Some(body),
            r.timeout_ms == DEFAULT_TIMEOUT_MS,
            r.retry == (HttpRetryPolicy { max_retries: 0, retry_on_5xx: true }),
    {
        let mut headers: Vec<HttpHeader> = Vec::new();
        headers.push(HttpHeader { name: owned("content-type"), value: owned("application/json") });
        HttpRequest {
            method: owned("POST"),
            url,
            headers,
            body: Some(body),
            timeout_ms: DEFAULT_TIMEOUT_MS,
            retry: HttpRetryPolicy::default(),
        }
    }

    /// The same request with another timeout.
    pub fn timeout_ms(self, timeout_ms: u64) -> (r: HttpRequest)
        ensures
            r == (HttpRequest { timeout_ms, ..self }),
    {
        HttpRequest { timeout_ms, ..self }
    }

    /// The same request with another retry policy.
    pub fn retry(self, retry: HttpRetryPolicy) -> (r: HttpRequest)
        ensures
            r == (HttpRequest { retry, ..self }),
    {
        HttpRequest { retry, ..self }
    }

    /// The same request with one more header, after the others.
    pub fn header(self, name: String, value: String) -> (r: HttpRequest)
        ensures
            r.method == self.method,
            r.url == self.url,
            r.headers@ == self.headers@.push(HttpHeader { name, value }),
            r.body == self.body,
            r.timeout_ms == self.timeout_ms,
            r.retry == self.retry,
    {
        let mut s = self;
        s.headers.push(HttpHeader { name, value });
        s
    }
}

#[derive(Debug, Clone, PartialEq, Eq)]
pub struct HttpResponse {
    pub status: u16,
    pub headers: Vec<HttpHeader>,
    pub body: String,
    pub attempts: u32,
    pub elapsed_ms: u64,
}

/// Attempts a policy allows: the first one and each retry (saturating).
pub open spec fn attempts_allowed(p: HttpRetryPolicy) -> u32 {
    if p.max_retries == u32::MAX {
        u32::MAX
    } else {
        (p.max_retries + 1) as u32
    }
}

pub fn allowed_attempts(p: &HttpRetryPolicy) -> (r: u32)
    ensures
        r == attempts_allowed(*p),
        r >= 1,
{
    p.max_retries.saturating_add(1)
}

/// What a client does after an attempt.
#[derive(Debug, Clone, Copy, PartialEq, Eq, Structural)]
pub enum HttpNextStep {
    /// Send the request again.
    Retry,
    /// Hand the response to the caller.
    Respond,
    /// Report the transport error to the caller.
    Fail,
}

/// The step after attempt number `attempt` (from 1): a response is
/// retried when the policy retries 5xx, the status is 5xx and attempts
/// are left; a transport error is retried while attempts are left.
pub open spec fn next_step(p: HttpRetryPolicy, attempt: u32, status: Option<u16>) -> HttpNextStep {
    match status {
        Some(s) => if p.retry_on_5xx && s >= 500 && attempt < attempts_allowed(p) {
            HttpNextStep::Retry
        } else {
            HttpNextStep::Respond
        },
        None => if attempt < attempts_allowed(p) {
            HttpNextStep::Retry
        } else {
            HttpNextStep::Fail
        },
    }
}

/// Decides what follows attempt number `attempt`, given the status it
/// answered with or `None` for a transport error.
pub fn decide_after_attempt(p: &HttpRetryPolicy, attempt: u32, status: Option<u16>) -> (r: HttpNextStep)
    ensures
        r == next_step(*p, attempt, status),
        r == HttpNextStep::Retry ==> attempt < attempts_allowed(*p),
{
    let allowed = allowed_attempts(p);
    match status {
        Some(s) => if p.retry_on_5xx && s >= 500 && attempt < allowed {
            HttpNextStep::Retry
        } else {
            HttpNextStep::Respond
        },
        None => if attempt < allowed {
            HttpNextStep::Retry
        } else {
            HttpNextStep::Fail
        },
    }
}

/// A client that follows [`next_step`] from attempt 1 never makes more
/// attempts than its policy allows: at the last allowed attempt it always
/// stops.
pub proof fn retries_stop_at_the_allowed_attempts(p: HttpRetryPolicy, status: Option<u16>)
    ensures
        next_step(p, attempts_allowed(p), status) != HttpNextStep::Retry,
{
}

} // verus!
