use aivyx_vision::gpu_lock_client::{
    acquire_status_outcome, is_success_status, lease_from_acquire_body, release_outcome,
    GpuLockClient, GpuLockClientError,
};

#[test]
fn acquire_returns_the_lease_id_from_a_successful_broker_response() {
    assert!(acquire_status_outcome(200).is_ok());
    let lease =
        lease_from_acquire_body(Ok("11111111-1111-1111-1111-111111111111".to_string())).unwrap();
    assert_eq!(lease.to_string(), "11111111-1111-1111-1111-111111111111");
}

#[test]
fn acquire_returns_timeout_when_the_broker_returns_503() {
    let err = acquire_status_outcome(503).unwrap_err();
    assert!(matches!(err, GpuLockClientError::Timeout));
}

#[test]
fn acquire_reports_an_unexpected_status_as_a_transport_error() {
    let err = acquire_status_outcome(500).unwrap_err();
    match err {
        GpuLockClientError::Transport(m) => assert_eq!(m, "unexpected status 500 Internal Server Error"),
        other => panic!("unexpected {other:?}"),
    }
}

#[test]
fn acquire_reports_an_unreadable_body_as_a_transport_error() {
    let err = lease_from_acquire_body(Err("missing field `lease_id`".to_string())).unwrap_err();
    match err {
        GpuLockClientError::Transport(m) => assert_eq!(m, "missing field `lease_id`"),
        other => panic!("unexpected {other:?}"),
    }
}

#[test]
fn release_succeeds_and_sends_the_exact_lease_id_back() {
    let lease =
        lease_from_acquire_body(Ok("22222222-2222-2222-2222-222222222222".to_string())).unwrap();
    assert_eq!(lease.as_str(), "22222222-2222-2222-2222-222222222222");
    assert!(release_outcome(200, None).is_ok());
}

#[test]
fn release_of_an_unknown_lease_returns_a_clear_error_not_a_panic() {
    let err = release_outcome(
        404,
        Some("{\"error\":\"lease not found, already released, or expired\"}".to_string()),
    )
    .unwrap_err();
    match err {
        GpuLockClientError::ReleaseRejected(m) => assert_eq!(
            m,
            "status 404 Not Found: {\"error\":\"lease not found, already released, or expired\"}"
        ),
        other => panic!("unexpected {other:?}"),
    }
}

#[test]
fn release_rejection_without_a_readable_body_has_an_empty_body_text() {
    let err = release_outcome(400, None).unwrap_err();
    assert_eq!(err.message(), "broker rejected the release: status 400 Bad Request: ");
}

#[test]
fn an_unregistered_status_is_written_with_the_unknown_reason() {
    let err = acquire_status_outcome(599).unwrap_err();
    assert_eq!(err.message(), "gpu-lock request to the broker failed: unexpected status 599 <unknown status code>");
}

#[test]
fn success_statuses_are_exactly_the_2xx_range() {
    assert!(!is_success_status(199));
    assert!(is_success_status(200));
    assert!(is_success_status(204));
    assert!(is_success_status(299));
    assert!(!is_success_status(300));
    assert!(!is_success_status(503));
}

#[test]
fn gpu_lock_endpoints_are_joined_to_the_broker_address() {
    let client = GpuLockClient::new(reqwest::Client::new(), "http://127.0.0.1:8899".to_string());
    assert_eq!(client.acquire_url(), "http://127.0.0.1:8899/gpu-lock/acquire");
    assert_eq!(client.release_url(), "http://127.0.0.1:8899/gpu-lock/release");
}

#[test]
fn gpu_lock_error_messages_name_the_failure() {
    assert_eq!(
        GpuLockClientError::Timeout.message(),
        "timed out waiting for the GPU lock (broker returned 503)"
    );
    assert_eq!(
        GpuLockClientError::Transport("connection refused".into()).message(),
        "gpu-lock request to the broker failed: connection refused"
    );
}
