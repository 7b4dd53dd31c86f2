//! The pipeline orchestrator: pulls the bounded candidate set from the
//! catalog, probes each candidate exactly once, and aggregates the
//! outcomes into a run summary.
//!
//! Catalog-level errors are fatal — without a candidate source there is no
//! work to do — while a single candidate's failure is recorded and the run
//! continues: no per-candidate failure ever escapes `run`.

use vstd::prelude::*;

use crate::catalog::{list_recent_candidates, open_catalog};
use crate::model::{
    count_status, failure_records, outcome_wf, CatalogError, FailureRecord, FeedCandidate,
    FreshnessOutcome, FreshnessStatus, RunSummary,
};
use crate::prober::{build_http_client, probe, PriorValidators};

verus! {

/// Configuration of one pipeline run. Every bound is explicit: a run
/// without a candidate limit or without a probe timeout is a caller
/// error, so neither is optional.
pub struct RunConfig {
    /// Identifying client signature, sent as a request header on every
    /// probe; an explicit value, not process-wide state, so a run can
    /// override it and tests can isolate it.
    pub signature: String,
    /// Candidates must have updated strictly after this epoch-second
    /// cutoff; the caller computes it as now minus its staleness window.
    pub cutoff_epoch_seconds: u64,
    /// Hard bound on the number of candidates pulled in this run.
    pub limit: usize,
    /// Per-probe timeout in milliseconds; it applies to each probe, not
    /// to the run as a whole.
    pub timeout_ms: u64,
    /// Bound on the redirect hops one probe may follow.
    pub max_redirects: usize,
}

/// Probe every candidate once, in order, with no prior validators and a
/// shared read-only client. Total, one-to-one: exactly one well-formed
/// outcome per candidate, correlated by id, even when every probe fails —
/// no candidate is ever silently dropped.
pub fn probe_all(
    client: Option<&reqwest::blocking::Client>,
    signature: &str,
    candidates: &Vec<FeedCandidate>,
) -> (outcomes: Vec<FreshnessOutcome>)
    ensures
        outcomes@.len() == candidates@.len(),
        forall|i: int|
            0 <= i < outcomes@.len() ==> (#[trigger] outcomes@[i]).candidate_id
                == candidates@[i].id,
        forall|i: int| 0 <= i < outcomes@.len() ==> outcome_wf(#[trigger] outcomes@[i]),
        client is None ==> forall|i: int|
            0 <= i < outcomes@.len() ==> (#[trigger] outcomes@[i]).status
                == FreshnessStatus::ProtocolError && outcomes@[i].http_status_code is None,
{
    let no_prior: Option<PriorValidators> = None;
    let mut outcomes: Vec<FreshnessOutcome> = Vec::new();
    let mut i: usize = 0;
    while i < candidates.len()
        invariant
            i <= candidates@.len(),
            outcomes@.len() == i,
            forall|j: int|
                0 <= j < i ==> (#[trigger] outcomes@[j]).candidate_id == candidates@[j].id,
            forall|j: int| 0 <= j < i ==> outcome_wf(#[trigger] outcomes@[j]),
            client is None ==> forall|j: int|
                0 <= j < i ==> (#[trigger] outcomes@[j]).status == FreshnessStatus::ProtocolError
                    && outcomes@[j].http_status_code is None,
        decreases candidates@.len() - i,
    {
        let o = probe(
            client,
            signature,
            candidates[i].id,
            candidates[i].endpoint_url.as_str(),
            &no_prior,
        );
        outcomes.push(o);
        i = i + 1;
    }
    outcomes
}

/// Fold a run's outcomes into its summary: one count per status, the
/// failure list, and the outcomes themselves for the downstream consumer.
/// Aggregation is commutative counting, so probe completion order carries
/// no meaning; this fold fixes the order the probes ran in.
pub fn aggregate_outcomes(outcomes: Vec<FreshnessOutcome>, malformed_rows: u64) -> (s: RunSummary)
    ensures
        s.outcomes@ == outcomes@,
        s.unchanged == count_status(outcomes@, FreshnessStatus::Unchanged),
        s.changed == count_status(outcomes@, FreshnessStatus::Changed),
        s.unreachable == count_status(outcomes@, FreshnessStatus::Unreachable),
        s.protocol_error == count_status(outcomes@, FreshnessStatus::ProtocolError),
        s.failures@ == failure_records(outcomes@),
        s.malformed_rows == malformed_rows,
{
    let mut unchanged: usize = 0;
    let mut changed: usize = 0;
    let mut unreachable: usize = 0;
    let mut protocol_error: usize = 0;
    let mut failures: Vec<FailureRecord> = Vec::new();
    let mut i: usize = 0;
    while i < outcomes.len()
        invariant
            i <= outcomes@.len(),
            unchanged + changed + unreachable + protocol_error == i,
            unchanged == count_status(outcomes@.take(i as int), FreshnessStatus::Unchanged),
            changed == count_status(outcomes@.take(i as int), FreshnessStatus::Changed),
            unreachable == count_status(outcomes@.take(i as int), FreshnessStatus::Unreachable),
            protocol_error == count_status(
                outcomes@.take(i as int),
                FreshnessStatus::ProtocolError,
            ),
            failures@ == failure_records(outcomes@.take(i as int)),
        decreases outcomes@.len() - i,
    {
        proof {
            assert(outcomes@.take(i + 1).drop_last() =~= outcomes@.take(i as int));
            assert(outcomes@.take(i + 1).last() == outcomes@[i as int]);
        }
        let o = &outcomes[i];
        match o.status {
            FreshnessStatus::Unchanged => {
                unchanged = unchanged + 1;
            },
            FreshnessStatus::Changed => {
                changed = changed + 1;
            },
            FreshnessStatus::Unreachable => {
                unreachable = unreachable + 1;
                failures.push(FailureRecord { candidate_id: o.candidate_id, status: o.status });
            },
            FreshnessStatus::ProtocolError => {
                protocol_error = protocol_error + 1;
                failures.push(FailureRecord { candidate_id: o.candidate_id, status: o.status });
            },
        }
        i = i + 1;
    }
    proof {
        assert(outcomes@.take(outcomes@.len() as int) =~= outcomes@);
    }
    RunSummary {
        unchanged,
        changed,
        unreachable,
        protocol_error,
        failures,
        outcomes,
        malformed_rows,
    }
}

/// One whole pipeline run: select the bounded, time-filtered candidate
/// set, probe each candidate exactly once, aggregate. A catalog error is
/// returned as-is, before any probe is attempted, and is the only way the
/// run fails: per-candidate failures are counted and listed in the
/// summary, never raised. In an `Ok` summary the counts are exactly the
/// per-status tallies of the outcome list, the failure list is exactly
/// the `Unreachable`/`ProtocolError` outcomes in probe order, every
/// outcome is well-formed, and at most `limit` candidates were probed.
pub fn run(catalog_path: &str, config: &RunConfig) -> (r: Result<RunSummary, CatalogError>)
    ensures
        r matches Ok(s) ==> s.outcomes@.len() <= config.limit,
        r matches Ok(s) ==> forall|i: int|
            0 <= i < s.outcomes@.len() ==> outcome_wf(#[trigger] s.outcomes@[i]),
        r matches Ok(s) ==> s.unchanged == count_status(s.outcomes@, FreshnessStatus::Unchanged)
            && s.changed == count_status(s.outcomes@, FreshnessStatus::Changed) && s.unreachable
            == count_status(s.outcomes@, FreshnessStatus::Unreachable) && s.protocol_error
            == count_status(s.outcomes@, FreshnessStatus::ProtocolError),
        r matches Ok(s) ==> s.failures@ == failure_records(s.outcomes@),
        r matches Err(e) ==> e is CatalogUnavailable || e is CatalogQueryError,
{
    let conn = match open_catalog(catalog_path) {
        Ok(c) => c,
        Err(e) => return Err(e),
    };
    let scan = match list_recent_candidates(&conn, config.cutoff_epoch_seconds, config.limit) {
        Ok(s) => s,
        Err(e) => return Err(e),
    };
    let client = build_http_client(config.timeout_ms, config.max_redirects);
    let outcomes = probe_all(client.as_ref(), config.signature.as_str(), &scan.candidates);
    Ok(aggregate_outcomes(outcomes, scan.malformed_rows))
}

} // verus!
