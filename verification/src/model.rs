//! Core data model of the freshness-check pipeline: catalog candidates,
//! probe outcomes, the error taxonomy, and the run summary.

use vstd::prelude::*;

verus! {

/// One catalog row selected for probing: a feed endpoint together with the
/// last time the catalog saw it update.
pub struct FeedCandidate {
    /// Opaque unique identifier from the catalog.
    pub id: u64,
    /// Absolute URL of the feed endpoint; not validated locally, a malformed
    /// URL surfaces as a prober error.
    pub endpoint_url: String,
    /// Display string, informational only.
    pub title: String,
    /// Last-known-update timestamp, in epoch seconds.
    pub last_updated: u64,
}

/// Classification of one probe of one feed endpoint.
#[derive(PartialEq, Eq, Structural, Clone, Copy, Debug)]
pub enum FreshnessStatus {
    /// The endpoint reported the feed unchanged since the prior observation.
    Unchanged,
    /// Content is available and must be assumed changed.
    Changed,
    /// The endpoint did not yield an interpretable success: a network-level
    /// failure, or an HTTP error status.
    Unreachable,
    /// A structurally unusable exchange: local request-building failure,
    /// redirect bound exceeded, corrupt response, or a status outside the
    /// protocol's expected classes.
    ProtocolError,
}

/// The result of probing one candidate; exactly one per candidate pulled.
pub struct FreshnessOutcome {
    /// Back-reference to `FeedCandidate::id`, for correlation only.
    pub candidate_id: u64,
    pub status: FreshnessStatus,
    /// Present exactly when an HTTP response was received.
    pub http_status_code: Option<u16>,
    /// Response headers, captured only on a successful (`Changed`) response
    /// so a caller can persist new cache validators for the next cycle.
    pub observed_headers: Vec<(String, String)>,
}

/// Fatal, run-level errors: without a candidate source there is no work to
/// do. Each variant carries the underlying cause's text verbatim, so a
/// caller has enough context to log and alert.
#[derive(PartialEq, Eq, Clone, Debug)]
pub enum CatalogError {
    /// The catalog store could not be opened.
    CatalogUnavailable(String),
    /// The filtered query could not be prepared or failed mid-scan.
    CatalogQueryError(String),
}

/// One recoverable per-candidate failure, recorded for reporting.
pub struct FailureRecord {
    pub candidate_id: u64,
    /// Either `Unreachable` or `ProtocolError`.
    pub status: FreshnessStatus,
}

/// Aggregated result of one pipeline run: counts by status, the failure
/// list, and the full outcome list handed to the downstream consumer.
pub struct RunSummary {
    pub unchanged: usize,
    pub changed: usize,
    pub unreachable: usize,
    pub protocol_error: usize,
    /// Per-candidate recoverable failures, in probe order.
    pub failures: Vec<FailureRecord>,
    /// One outcome per candidate pulled, in probe order.
    pub outcomes: Vec<FreshnessOutcome>,
    /// Catalog rows that could not be decoded into a candidate; they are
    /// skipped, not fatal, and counted here.
    pub malformed_rows: u64,
}

/// How a freshness status is read off a received HTTP status code:
/// 304 means not modified, any 2xx means content is available (assumed
/// changed), 4xx/5xx mean the endpoint is not usably reachable, and any
/// other code is a structurally unexpected exchange.
pub open spec fn status_of_code(code: u16) -> FreshnessStatus {
    if code == 304 {
        FreshnessStatus::Unchanged
    } else if 200 <= code && code <= 299 {
        FreshnessStatus::Changed
    } else if 400 <= code && code <= 599 {
        FreshnessStatus::Unreachable
    } else {
        FreshnessStatus::ProtocolError
    }
}

/// Cross-field consistency of one outcome: the status agrees with the
/// carried HTTP status code, and headers are only captured on `Changed`.
pub open spec fn outcome_wf(o: FreshnessOutcome) -> bool {
    &&& (o.http_status_code matches Some(c) ==> o.status == status_of_code(c))
    &&& (o.http_status_code is None ==> o.status == FreshnessStatus::Unreachable
        || o.status == FreshnessStatus::ProtocolError)
    &&& (o.status != FreshnessStatus::Changed ==> o.observed_headers@.len() == 0)
}

/// How many outcomes in `s` carry status `st`.
pub open spec fn count_status(s: Seq<FreshnessOutcome>, st: FreshnessStatus) -> nat
    decreases s.len(),
{
    if s.len() == 0 {
        0
    } else {
        count_status(s.drop_last(), st) + (if s.last().status == st {
            1nat
        } else {
            0nat
        })
    }
}

/// The failure records that a sequence of outcomes gives rise to: one per
/// `Unreachable` or `ProtocolError` outcome, in order.
pub open spec fn failure_records(s: Seq<FreshnessOutcome>) -> Seq<FailureRecord>
    decreases s.len(),
{
    if s.len() == 0 {
        Seq::empty()
    } else {
        failure_records(s.drop_last()) + (if s.last().status == FreshnessStatus::Unreachable
            || s.last().status == FreshnessStatus::ProtocolError {
            seq![FailureRecord { candidate_id: s.last().candidate_id, status: s.last().status }]
        } else {
            Seq::empty()
        })
    }
}

/// Every outcome carries exactly one of the four statuses, so the four
/// per-status counts partition the outcome list: they sum to its length.
pub proof fn lemma_counts_partition(s: Seq<FreshnessOutcome>)
    ensures
        count_status(s, FreshnessStatus::Unchanged) + count_status(s, FreshnessStatus::Changed)
            + count_status(s, FreshnessStatus::Unreachable) + count_status(
            s,
            FreshnessStatus::ProtocolError,
        ) == s.len(),
    decreases s.len(),
{
    if s.len() > 0 {
        lemma_counts_partition(s.drop_last());
    }
}

} // verus!
