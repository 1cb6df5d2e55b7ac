use elerem::fuzzer::config::{AttackType, Configuration, ScenarioId, Scenario, Security, TargetConfig};
use elerem::fuzzer::http::{is_tls_failure, ErrorKinds, HttpMetrics, HttpPlanner, RequestError};

#[test]
fn test_request_error_display() {
    assert_eq!(RequestError::Connection.to_string(), "connection");
    assert_eq!(RequestError::Timeout.to_string(), "timeout");
    assert_eq!(RequestError::Tls.to_string(), "tls");
    assert_eq!(RequestError::Protocol.to_string(), "protocol");
    assert_eq!(RequestError::BodyRead.to_string(), "body_read");
    assert_eq!(RequestError::Cancelled.to_string(), "cancelled");
    assert_eq!(RequestError::Other.to_string(), "other");
}

fn kinds(is_timeout: bool, is_connect: bool, is_request: bool, is_body: bool) -> ErrorKinds {
    ErrorKinds { is_timeout, is_tls: false, is_connect, is_request, is_body }
}

#[test]
fn tls_failures_are_their_own_category() {
    let tls = ErrorKinds { is_timeout: false, is_tls: true, is_connect: true, is_request: false, is_body: false };
    assert_eq!(RequestError::from_error_kinds(tls), RequestError::Tls);
    let slow_tls = ErrorKinds { is_timeout: true, ..tls };
    assert_eq!(RequestError::from_error_kinds(slow_tls), RequestError::Timeout);
}

#[test]
fn classification_prefers_timeout_then_connection() {
    assert_eq!(RequestError::from_error_kinds(kinds(true, true, true, true)), RequestError::Timeout);
    assert_eq!(RequestError::from_error_kinds(kinds(false, true, true, true)), RequestError::Connection);
    assert_eq!(RequestError::from_error_kinds(kinds(false, false, true, true)), RequestError::Protocol);
    assert_eq!(RequestError::from_error_kinds(kinds(false, false, false, true)), RequestError::BodyRead);
    assert_eq!(RequestError::from_error_kinds(kinds(false, false, false, false)), RequestError::Other);
}

#[test]
fn as_str_matches_to_string() {
    for e in [
        RequestError::Connection,
        RequestError::Timeout,
        RequestError::Tls,
        RequestError::Protocol,
        RequestError::BodyRead,
        RequestError::Cancelled,
        RequestError::Other,
    ] {
        assert_eq!(e.as_str(), e.to_string());
    }
}

#[test]
fn error_names_are_distinct() {
    let all = [
        RequestError::Connection,
        RequestError::Timeout,
        RequestError::Tls,
        RequestError::Protocol,
        RequestError::BodyRead,
        RequestError::Cancelled,
        RequestError::Other,
    ];
    for a in all {
        for b in all {
            assert_eq!(a.as_str() == b.as_str(), a == b);
        }
    }
}

#[test]
fn success_needs_a_2xx_status_and_no_error() {
    assert!(HttpMetrics::from_status(3, 200, 1_000).is_success());
    assert!(HttpMetrics::from_status(3, 299, 1_000).is_success());
    assert!(!HttpMetrics::from_status(3, 199, 1_000).is_success());
    assert!(!HttpMetrics::from_status(3, 300, 1_000).is_success());
    assert!(!HttpMetrics::from_status(3, 404, 1_000).is_success());
    let failed = HttpMetrics::from_error(7, RequestError::Timeout, 2_500);
    assert!(!failed.is_success());
    assert_eq!(failed.status_code(), None);
    assert_eq!(failed.error(), Some(RequestError::Timeout));
    assert_eq!(failed.vuser_id(), 7);
    assert_eq!(failed.duration_nanos(), 2_500);
    assert_eq!(HttpMetrics::from_status(3, 204, 42).duration_nanos(), 42);
    assert_eq!(HttpMetrics::from_status(3, 201, 1_000).status_code(), Some(201));
}

#[test]
fn planner_keeps_its_configuration() {
    let config = Configuration {
        id: ScenarioId("s1".to_string()),
        name: "smoke".to_string(),
        description: None,
        target: TargetConfig {
            base_url: "http://localhost".to_string(),
            auth_token: None,
            timeout_seconds: 30,
            headers: None,
        },
        scenario: Scenario::Security(Security {
            attack_types: vec![AttackType::SqlInjection],
            concurrent_requests: 2,
            max_requests: Some(10),
            endpoints: vec![],
        }),
    };
    let planner = HttpPlanner::from(config);
    assert_eq!(planner.config.name, "smoke");
    assert_eq!(planner.config.target.timeout_seconds, 30);
}

#[test]
fn tls_failures_recognised_from_cause_messages() {
    let msgs = |v: &[&str]| v.iter().map(|m| m.to_string()).collect::<Vec<String>>();
    assert!(is_tls_failure(&msgs(&["error trying to connect", "invalid peer Certificate: UnknownIssuer"])));
    assert!(is_tls_failure(&msgs(&["received fatal alert: HandShakeFailure"])));
    assert!(is_tls_failure(&msgs(&["SSL routines failed"])));
    assert!(is_tls_failure(&msgs(&["tls connection init failed"])));
    assert!(!is_tls_failure(&msgs(&["connection refused", "tcp connect error"])));
    assert!(!is_tls_failure(&msgs(&[])));
    assert!(!is_tls_failure(&msgs(&["t l s"])));
}
