use hydra::model::{FeedCandidate, FreshnessStatus};
use hydra::orchestrator::{aggregate_outcomes, probe_all, run, RunConfig};
use hydra::prober::{classify_failure, classify_response, RawResponse, TransportFailure};

fn config(limit: usize) -> RunConfig {
    RunConfig {
        signature: "hydra/0.1".to_string(),
        cutoff_epoch_seconds: 0,
        limit,
        timeout_ms: 3000,
        max_redirects: 5,
    }
}

#[test]
fn two_feeds_one_not_modified_one_with_new_etag() {
    let a = classify_response(1, RawResponse { status: 304, headers: Vec::new() });
    let b = classify_response(
        2,
        RawResponse {
            status: 200,
            headers: vec![("etag".to_string(), "\"v2\"".to_string())],
        },
    );
    let s = aggregate_outcomes(vec![a, b], 0);
    assert_eq!(s.unchanged, 1);
    assert_eq!(s.changed, 1);
    assert_eq!(s.unreachable, 0);
    assert_eq!(s.protocol_error, 0);
    assert!(s.failures.is_empty());
    let changed = s
        .outcomes
        .iter()
        .find(|o| o.status == FreshnessStatus::Changed)
        .unwrap();
    assert_eq!(changed.candidate_id, 2);
    assert!(changed
        .observed_headers
        .iter()
        .any(|(k, v)| k == "etag" && v == "\"v2\""));
}

#[test]
fn aggregation_counts_partition_the_outcomes() {
    let outcomes = vec![
        classify_response(1, RawResponse { status: 304, headers: Vec::new() }),
        classify_response(2, RawResponse { status: 500, headers: Vec::new() }),
        classify_failure(3, TransportFailure::ConnectFailed),
        classify_failure(4, TransportFailure::RedirectLimitExceeded),
        classify_response(5, RawResponse { status: 200, headers: Vec::new() }),
    ];
    let s = aggregate_outcomes(outcomes, 0);
    assert_eq!(s.unchanged + s.changed + s.unreachable + s.protocol_error, 5);
    assert_eq!(s.unchanged, 1);
    assert_eq!(s.changed, 1);
    assert_eq!(s.unreachable, 2);
    assert_eq!(s.protocol_error, 1);
    let failure_ids: Vec<u64> = s.failures.iter().map(|f| f.candidate_id).collect();
    assert_eq!(failure_ids, vec![2, 3, 4]);
}

#[test]
fn every_candidate_yields_exactly_one_outcome() {
    let client = reqwest::blocking::Client::builder()
        .timeout(std::time::Duration::from_millis(3000))
        .build()
        .unwrap();
    let candidates = vec![
        FeedCandidate {
            id: 1,
            endpoint_url: "http://127.0.0.1:1/a".to_string(),
            title: "a".to_string(),
            last_updated: 100,
        },
        FeedCandidate {
            id: 2,
            endpoint_url: "not a url at all".to_string(),
            title: "b".to_string(),
            last_updated: 100,
        },
        FeedCandidate {
            id: 3,
            endpoint_url: "http://127.0.0.1:1/c".to_string(),
            title: "c".to_string(),
            last_updated: 100,
        },
    ];
    let outcomes = probe_all(Some(&client), "hydra/0.1", &candidates);
    assert_eq!(outcomes.len(), candidates.len());
    for (c, o) in candidates.iter().zip(outcomes.iter()) {
        assert_eq!(c.id, o.candidate_id);
    }
}

#[test]
fn unavailable_catalog_fails_the_run_with_zero_outcomes() {
    let r = run("/no-such-directory-anywhere/catalog.db", &config(10));
    match r {
        Err(hydra::model::CatalogError::CatalogUnavailable(cause)) => assert!(!cause.is_empty()),
        _ => panic!("run must fail with CatalogUnavailable when the store cannot be opened"),
    }
}

#[test]
fn run_records_unreachable_candidates_and_continues() {
    let setup = rusqlite::Connection::open("/tmp/hydra_test_run_store.db").unwrap();
    setup
        .execute_batch(
            "CREATE TABLE IF NOT EXISTS podcasts (id INTEGER, url TEXT, title TEXT, newestItemPubdate INTEGER);
             DELETE FROM podcasts;
             INSERT INTO podcasts VALUES (1, 'http://127.0.0.1:1/a', 'a', 1000);
             INSERT INTO podcasts VALUES (2, 'http://127.0.0.1:1/b', 'b', 2000);",
        )
        .unwrap();
    drop(setup);

    let s = run("/tmp/hydra_test_run_store.db", &config(10)).unwrap();
    assert_eq!(s.outcomes.len(), 2);
    assert_eq!(s.unreachable, 2);
    assert_eq!(s.unchanged, 0);
    assert_eq!(s.changed, 0);
    assert_eq!(s.protocol_error, 0);
    assert_eq!(s.failures.len(), 2);
    for o in &s.outcomes {
        assert_eq!(o.status, FreshnessStatus::Unreachable);
        assert_eq!(o.http_status_code, None);
    }
}

#[test]
fn run_respects_the_candidate_limit() {
    let setup = rusqlite::Connection::open("/tmp/hydra_test_run_limit_store.db").unwrap();
    setup
        .execute_batch(
            "CREATE TABLE IF NOT EXISTS podcasts (id INTEGER, url TEXT, title TEXT, newestItemPubdate INTEGER);
             DELETE FROM podcasts;
             INSERT INTO podcasts VALUES (1, 'http://127.0.0.1:1/a', 'a', 1000);
             INSERT INTO podcasts VALUES (2, 'http://127.0.0.1:1/b', 'b', 2000);
             INSERT INTO podcasts VALUES (3, 'http://127.0.0.1:1/c', 'c', 3000);",
        )
        .unwrap();
    drop(setup);

    let s = run("/tmp/hydra_test_run_limit_store.db", &config(1)).unwrap();
    assert_eq!(s.outcomes.len(), 1);
    assert_eq!(s.unchanged + s.changed + s.unreachable + s.protocol_error, 1);
}
