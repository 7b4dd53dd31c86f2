//! The freshness prober: issues one cheap conditional HTTP GET against a
//! feed endpoint and classifies the exchange as unchanged / changed /
//! unreachable / protocol error.
//!
//! The network call itself goes through small trusted wrappers around
//! reqwest's blocking client; everything read off the exchange — status
//! code, headers, failure class — comes back as plain values, and the
//! classification of those values is verified.

use vstd::prelude::*;

use crate::model::{status_of_code, outcome_wf, FreshnessOutcome, FreshnessStatus};

verus! {

/// Cache validators observed on an earlier probe of the same endpoint,
/// handed back in so the next probe can be conditional. All validator
/// state flows through parameters and results; the prober keeps none.
pub struct PriorValidators {
    /// Entity tag of the last observed response, sent as `If-None-Match`.
    pub etag: Option<String>,
    /// Timestamp of the last observed response, sent as `If-Modified-Since`.
    pub last_modified: Option<String>,
}

/// What an HTTP exchange yielded when no usable response came back.
#[derive(PartialEq, Eq, Structural, Clone, Copy, Debug)]
pub enum TransportFailure {
    /// The request did not complete within the configured timeout.
    TimedOut,
    /// DNS, connection or TLS failure while reaching the endpoint.
    ConnectFailed,
    /// The exchange failed at the network level for another reason.
    OtherNetworkFailure,
    /// The bounded number of redirect hops was exceeded.
    RedirectLimitExceeded,
    /// The request could not be built, e.g. from a malformed URL.
    RequestNotBuilt,
    /// A response arrived but could not be decoded as valid HTTP.
    MalformedResponse,
    /// The shared HTTP client itself could not be initialised.
    ClientSetupFailed,
}

/// The parts of a received HTTP response that the classification reads.
pub struct RawResponse {
    pub status: u16,
    /// Header name/value pairs of the response, as plain strings.
    pub headers: Vec<(String, String)>,
}

/// How a freshness status is read off a failed exchange: network-level
/// failures mean the endpoint is unreachable (transient, remote-side),
/// while locally broken exchanges — unbuildable request, redirect bound
/// exceeded, undecodable response, client setup failure — are protocol
/// errors, so an orchestrator can retry the two classes differently.
pub open spec fn status_of_failure(f: TransportFailure) -> FreshnessStatus {
    match f {
        TransportFailure::TimedOut => FreshnessStatus::Unreachable,
        TransportFailure::ConnectFailed => FreshnessStatus::Unreachable,
        TransportFailure::OtherNetworkFailure => FreshnessStatus::Unreachable,
        TransportFailure::RedirectLimitExceeded => FreshnessStatus::ProtocolError,
        TransportFailure::RequestNotBuilt => FreshnessStatus::ProtocolError,
        TransportFailure::MalformedResponse => FreshnessStatus::ProtocolError,
        TransportFailure::ClientSetupFailed => FreshnessStatus::ProtocolError,
    }
}

/// Classify a received HTTP response for one candidate. Headers are kept
/// only on a successful (`Changed`) response, where a caller needs them to
/// persist new cache validators.
pub fn classify_response(candidate_id: u64, resp: RawResponse) -> (o: FreshnessOutcome)
    ensures
        o.candidate_id == candidate_id,
        o.http_status_code == Some(resp.status),
        o.status == status_of_code(resp.status),
        o.status == FreshnessStatus::Changed ==> o.observed_headers@ == resp.headers@,
        o.status != FreshnessStatus::Changed ==> o.observed_headers@.len() == 0,
        outcome_wf(o),
{
    if resp.status == 304 {
        FreshnessOutcome {
            candidate_id,
            status: FreshnessStatus::Unchanged,
            http_status_code: Some(resp.status),
            observed_headers: Vec::new(),
        }
    } else if 200 <= resp.status && resp.status <= 299 {
        FreshnessOutcome {
            candidate_id,
            status: FreshnessStatus::Changed,
            http_status_code: Some(resp.status),
            observed_headers: resp.headers,
        }
    } else if 400 <= resp.status && resp.status <= 599 {
        FreshnessOutcome {
            candidate_id,
            status: FreshnessStatus::Unreachable,
            http_status_code: Some(resp.status),
            observed_headers: Vec::new(),
        }
    } else {
        FreshnessOutcome {
            candidate_id,
            status: FreshnessStatus::ProtocolError,
            http_status_code: Some(resp.status),
            observed_headers: Vec::new(),
        }
    }
}

/// Classify a failed exchange for one candidate: no response was received,
/// so the outcome carries no HTTP status code and no headers.
pub fn classify_failure(candidate_id: u64, f: TransportFailure) -> (o: FreshnessOutcome)
    ensures
        o.candidate_id == candidate_id,
        o.http_status_code is None,
        o.status == status_of_failure(f),
        o.observed_headers@.len() == 0,
        outcome_wf(o),
{
    let status = match f {
        TransportFailure::TimedOut => FreshnessStatus::Unreachable,
        TransportFailure::ConnectFailed => FreshnessStatus::Unreachable,
        TransportFailure::OtherNetworkFailure => FreshnessStatus::Unreachable,
        TransportFailure::RedirectLimitExceeded => FreshnessStatus::ProtocolError,
        TransportFailure::RequestNotBuilt => FreshnessStatus::ProtocolError,
        TransportFailure::MalformedResponse => FreshnessStatus::ProtocolError,
        TransportFailure::ClientSetupFailed => FreshnessStatus::ProtocolError,
    };
    FreshnessOutcome {
        candidate_id,
        status,
        http_status_code: None,
        observed_headers: Vec::new(),
    }
}

/// The exact request headers a probe sends: the identifying client
/// signature first, then `If-None-Match` when an entity tag is supplied,
/// then `If-Modified-Since` when a timestamp is supplied, and nothing else.
pub open spec fn probe_headers_match(
    hs: Seq<(String, String)>,
    sig: Seq<char>,
    prior: Option<PriorValidators>,
) -> bool {
    &&& hs.len() >= 1
    &&& hs[0].0@ == "User-Agent"@
    &&& hs[0].1@ == sig
    &&& match prior {
        None => hs.len() == 1,
        Some(v) => match (v.etag, v.last_modified) {
            (None, None) => hs.len() == 1,
            (Some(e), None) => hs.len() == 2 && hs[1].0@ == "If-None-Match"@ && hs[1].1@ == e@,
            (None, Some(m)) => hs.len() == 2 && hs[1].0@ == "If-Modified-Since"@ && hs[1].1@
                == m@,
            (Some(e), Some(m)) => hs.len() == 3 && hs[1].0@ == "If-None-Match"@ && hs[1].1@ == e@
                && hs[2].0@ == "If-Modified-Since"@ && hs[2].1@ == m@,
        },
    }
}

/// Build the request headers for one probe: the fixed client signature,
/// plus the cache-validation headers for whatever prior validators exist.
pub fn conditional_headers(signature: &str, prior: &Option<PriorValidators>) -> (r: Vec<
    (String, String),
>)
    ensures
        probe_headers_match(r@, signature@, *prior),
{
    let mut r: Vec<(String, String)> = Vec::new();
    r.push(("User-Agent".to_string(), signature.to_string()));
    match prior {
        None => {},
        Some(v) => {
            match &v.etag {
                Some(e) => {
                    r.push(("If-None-Match".to_string(), e.as_str().to_string()));
                },
                None => {},
            }
            match &v.last_modified {
                Some(m) => {
                    r.push(("If-Modified-Since".to_string(), m.as_str().to_string()));
                },
                None => {},
            }
        },
    }
    r
}

#[verifier::external_type_specification]
#[verifier::external_body]
pub struct ExClient(reqwest::blocking::Client);

#[verifier::external_type_specification]
#[verifier::external_body]
pub struct ExReqwestError(reqwest::Error);

/// Relies on reqwest's blocking `ClientBuilder`: `redirect` with
/// `Policy::limited(n)` caps redirect following at `n` hops, `timeout`
/// bounds every request issued through the client, and `build` yields the
/// client, or fails if the backend cannot be initialised.
#[verifier::external_body]
pub(crate) fn build_http_client(timeout_ms: u64, max_redirects: usize) -> (r: Option<
    reqwest::blocking::Client,
>) {
    reqwest::blocking::Client::builder().redirect(
        reqwest::redirect::Policy::limited(max_redirects),
    ).timeout(std::time::Duration::from_millis(timeout_ms)).build().ok()
}

/// Relies on reqwest's blocking `Client::get`, `RequestBuilder::header` and
/// `RequestBuilder::send`, and on `Response::status` and `Response::headers`:
/// issues one GET carrying the given headers and hands back the received
/// status code and response headers as plain values.
#[verifier::external_body]
fn http_get(
    client: &reqwest::blocking::Client,
    url: &str,
    headers: &Vec<(String, String)>,
) -> (r: Result<RawResponse, reqwest::Error>) {
    let mut req = client.get(url);
    for h in headers.iter() {
        req = req.header(h.0.as_str(), h.1.as_str());
    }
    match req.send() {
        Ok(resp) => {
            let status: u16 = resp.status().as_u16();
            let hs: Vec<(String, String)> = resp.headers().iter().map(
                |(k, v)| (k.as_str().to_string(), String::from_utf8_lossy(v.as_bytes()).into_owned()),
            ).collect();
            Ok(RawResponse { status, headers: hs })
        },
        Err(e) => Err(e),
    }
}

/// Relies on `hyper::Error::is_parse`, reached through the std error
/// source chain of a `reqwest::Error`: true exactly when a response head
/// arrived but could not be parsed as valid HTTP.
#[verifier::external_body]
fn is_framing_error(e: &reqwest::Error) -> (r: bool) {
    let mut source: Option<&(dyn std::error::Error + 'static)> = std::error::Error::source(e);
    while let Some(cause) = source {
        if let Some(h) = cause.downcast_ref::<hyper::Error>() {
            if h.is_parse() {
                return true;
            }
        }
        source = cause.source();
    }
    false
}

/// Relies on `reqwest::Error`'s `is_timeout`, `is_connect`, `is_redirect`,
/// `is_builder` and `is_decode` predicates to tell the failure classes of a
/// failed exchange apart, one arm each; `is_decode` covers a response body
/// that could not be decoded. A client that exists sent the request, so
/// the one class this never reports is a failed client setup.
#[verifier::external_body]
fn transport_failure_of(e: &reqwest::Error) -> (r: TransportFailure)
    ensures
        r != TransportFailure::ClientSetupFailed,
{
    if e.is_timeout() {
        TransportFailure::TimedOut
    } else if e.is_connect() {
        TransportFailure::ConnectFailed
    } else if e.is_redirect() {
        TransportFailure::RedirectLimitExceeded
    } else if e.is_builder() {
        TransportFailure::RequestNotBuilt
    } else if e.is_decode() {
        TransportFailure::MalformedResponse
    } else {
        TransportFailure::OtherNetworkFailure
    }
}

/// Probe one endpoint once: send a conditional GET carrying the client
/// signature and whatever prior validators exist, and classify whatever
/// came back. Total: every call yields exactly one well-formed outcome for
/// the given candidate, whatever the network did. The prober holds no
/// state across calls; `client` is shared, read-only configuration, and
/// `None` (a client that could not be set up) classifies as a local
/// protocol error rather than a panic.
pub fn probe(
    client: Option<&reqwest::blocking::Client>,
    signature: &str,
    candidate_id: u64,
    endpoint_url: &str,
    prior: &Option<PriorValidators>,
) -> (o: FreshnessOutcome)
    ensures
        o.candidate_id == candidate_id,
        outcome_wf(o),
        client is None ==> o.status == FreshnessStatus::ProtocolError && o.http_status_code
            is None && o.observed_headers@.len() == 0,
{
    match client {
        None => classify_failure(candidate_id, TransportFailure::ClientSetupFailed),
        Some(c) => {
            let headers = conditional_headers(signature, prior);
            match http_get(c, endpoint_url, &headers) {
                Ok(raw) => classify_response(candidate_id, raw),
                Err(e) => {
                    let failure = if is_framing_error(&e) {
                        TransportFailure::MalformedResponse
                    } else {
                        transport_failure_of(&e)
                    };
                    classify_failure(candidate_id, failure)
                },
            }
        },
    }
}

/// Any success status (2xx) classifies as `Changed`, never as `Unchanged` —
/// in particular a probe without prior validators that reaches a 2xx
/// response always reports `Changed`: the classification reads the status
/// code alone and no validator can turn a success into `Unchanged`.
pub proof fn lemma_success_classifies_changed(code: u16)
    requires
        200 <= code <= 299,
    ensures
        status_of_code(code) == FreshnessStatus::Changed,
        status_of_code(code) != FreshnessStatus::Unchanged,
{
}

/// Model of a static resource behind a conforming origin: a conditional
/// request whose validators match the resource's current state is answered
/// with 304 Not Modified; anything else is answered with a fresh 200.
pub open spec fn static_origin_code(validators_match: bool) -> u16 {
    if validators_match {
        304
    } else {
        200
    }
}

/// Re-probing an unchanged endpoint is idempotent: against a static
/// resource whose origin answers a matching conditional probe with 304,
/// the classification is `Unchanged`, and stays `Unchanged` on every
/// repetition, since the outcome is a function of the response alone and
/// the prober keeps no state between probes.
pub proof fn lemma_reprobe_unchanged(validators_match: bool)
    requires
        validators_match,
    ensures
        status_of_code(static_origin_code(validators_match)) == FreshnessStatus::Unchanged,
{
}

} // verus!
