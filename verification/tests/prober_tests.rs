use hydra::model::FreshnessStatus;
use hydra::prober::{
    classify_failure, classify_response, conditional_headers, probe, PriorValidators, RawResponse,
    TransportFailure,
};

fn no_headers() -> Vec<(String, String)> {
    Vec::new()
}

#[test]
fn not_modified_classifies_unchanged() {
    let o = classify_response(1, RawResponse { status: 304, headers: no_headers() });
    assert_eq!(o.candidate_id, 1);
    assert_eq!(o.status, FreshnessStatus::Unchanged);
    assert_eq!(o.http_status_code, Some(304));
    assert!(o.observed_headers.is_empty());
}

#[test]
fn reprobing_a_static_resource_stays_unchanged() {
    let first = classify_response(1, RawResponse { status: 304, headers: no_headers() });
    let second = classify_response(1, RawResponse { status: 304, headers: no_headers() });
    assert_eq!(first.status, FreshnessStatus::Unchanged);
    assert_eq!(second.status, FreshnessStatus::Unchanged);
    assert_eq!(first.http_status_code, second.http_status_code);
}

#[test]
fn success_classifies_changed_with_headers() {
    let headers = vec![("etag".to_string(), "\"abc\"".to_string())];
    let o = classify_response(2, RawResponse { status: 200, headers: headers.clone() });
    assert_eq!(o.status, FreshnessStatus::Changed);
    assert_eq!(o.http_status_code, Some(200));
    assert_eq!(o.observed_headers, headers);
}

#[test]
fn success_without_validators_never_unchanged() {
    for status in [200u16, 201, 204, 206, 299] {
        let o = classify_response(9, RawResponse { status, headers: no_headers() });
        assert_eq!(o.status, FreshnessStatus::Changed);
        assert_ne!(o.status, FreshnessStatus::Unchanged);
    }
}

#[test]
fn server_error_classifies_unreachable_with_code() {
    let o = classify_response(3, RawResponse { status: 500, headers: no_headers() });
    assert_eq!(o.status, FreshnessStatus::Unreachable);
    assert_eq!(o.http_status_code, Some(500));
    assert!(o.observed_headers.is_empty());
}

#[test]
fn client_error_classifies_unreachable_with_code() {
    let o = classify_response(4, RawResponse { status: 404, headers: no_headers() });
    assert_eq!(o.status, FreshnessStatus::Unreachable);
    assert_eq!(o.http_status_code, Some(404));
}

#[test]
fn unfollowed_redirect_classifies_protocol_error() {
    let o = classify_response(5, RawResponse { status: 301, headers: no_headers() });
    assert_eq!(o.status, FreshnessStatus::ProtocolError);
    assert_eq!(o.http_status_code, Some(301));
}

#[test]
fn informational_status_classifies_protocol_error() {
    let o = classify_response(6, RawResponse { status: 100, headers: no_headers() });
    assert_eq!(o.status, FreshnessStatus::ProtocolError);
}

#[test]
fn connect_failure_classifies_unreachable_without_code() {
    let o = classify_failure(7, TransportFailure::ConnectFailed);
    assert_eq!(o.status, FreshnessStatus::Unreachable);
    assert_eq!(o.http_status_code, None);
    assert!(o.observed_headers.is_empty());
}

#[test]
fn timeout_classifies_unreachable_without_code() {
    let o = classify_failure(8, TransportFailure::TimedOut);
    assert_eq!(o.status, FreshnessStatus::Unreachable);
    assert_eq!(o.http_status_code, None);
}

#[test]
fn redirect_bound_exceeded_classifies_protocol_error() {
    let o = classify_failure(9, TransportFailure::RedirectLimitExceeded);
    assert_eq!(o.status, FreshnessStatus::ProtocolError);
    assert_eq!(o.http_status_code, None);
}

#[test]
fn undecodable_response_classifies_protocol_error() {
    let o = classify_failure(10, TransportFailure::MalformedResponse);
    assert_eq!(o.status, FreshnessStatus::ProtocolError);
}

#[test]
fn headers_without_validators_carry_only_signature() {
    let hs = conditional_headers("hydra/0.1", &None);
    assert_eq!(hs.len(), 1);
    assert_eq!(hs[0].0, "User-Agent");
    assert_eq!(hs[0].1, "hydra/0.1");
}

#[test]
fn headers_with_both_validators() {
    let prior = Some(PriorValidators {
        etag: Some("\"v1\"".to_string()),
        last_modified: Some("Mon, 01 Jan 2024 00:00:00 GMT".to_string()),
    });
    let hs = conditional_headers("hydra/0.1", &prior);
    assert_eq!(hs.len(), 3);
    assert_eq!(hs[0].0, "User-Agent");
    assert_eq!(hs[1].0, "If-None-Match");
    assert_eq!(hs[1].1, "\"v1\"");
    assert_eq!(hs[2].0, "If-Modified-Since");
    assert_eq!(hs[2].1, "Mon, 01 Jan 2024 00:00:00 GMT");
}

#[test]
fn headers_with_etag_only() {
    let prior = Some(PriorValidators { etag: Some("\"v1\"".to_string()), last_modified: None });
    let hs = conditional_headers("hydra/0.1", &prior);
    assert_eq!(hs.len(), 2);
    assert_eq!(hs[1].0, "If-None-Match");
}

#[test]
fn headers_with_timestamp_only() {
    let prior = Some(PriorValidators {
        etag: None,
        last_modified: Some("Mon, 01 Jan 2024 00:00:00 GMT".to_string()),
    });
    let hs = conditional_headers("hydra/0.1", &prior);
    assert_eq!(hs.len(), 2);
    assert_eq!(hs[1].0, "If-Modified-Since");
}

#[test]
fn refused_connection_probes_unreachable_without_code() {
    let client = reqwest::blocking::Client::builder()
        .timeout(std::time::Duration::from_millis(3000))
        .build()
        .unwrap();
    let o = probe(Some(&client), "hydra/0.1", 11, "http://127.0.0.1:1/feed.xml", &None);
    assert_eq!(o.candidate_id, 11);
    assert_eq!(o.status, FreshnessStatus::Unreachable);
    assert_eq!(o.http_status_code, None);
}

#[test]
fn malformed_url_probes_protocol_error() {
    let client = reqwest::blocking::Client::builder()
        .timeout(std::time::Duration::from_millis(3000))
        .build()
        .unwrap();
    let o = probe(Some(&client), "hydra/0.1", 12, "not a url at all", &None);
    assert_eq!(o.candidate_id, 12);
    assert_eq!(o.status, FreshnessStatus::ProtocolError);
    assert_eq!(o.http_status_code, None);
}

#[test]
fn missing_client_probes_protocol_error() {
    let o = probe(None, "hydra/0.1", 13, "http://127.0.0.1:1/feed.xml", &None);
    assert_eq!(o.candidate_id, 13);
    assert_eq!(o.status, FreshnessStatus::ProtocolError);
    assert_eq!(o.http_status_code, None);
}
