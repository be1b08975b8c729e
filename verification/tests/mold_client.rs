use aivyx_vision::mold_client::{
    classify_transport_error, error_response, success_response, GenerateImageRequest, MoldClient,
    MoldClientError, MoldErrorBody,
};

#[test]
fn generate_returns_image_bytes_content_type_and_seed_used_on_success() {
    let png_bytes = vec![0x89, b'P', b'N', b'G', 0x0d, 0x0a, 0x1a, 0x0a];
    let response = success_response(Some("image/png"), Some("12345"), png_bytes.clone());
    assert_eq!(response.bytes, png_bytes);
    assert_eq!(response.content_type, "image/png");
    assert_eq!(response.seed_used, Some(12345));
}

#[test]
fn generate_defaults_the_content_type_and_skips_an_unparsable_seed() {
    let response = success_response(None, Some("twelve"), vec![1, 2, 3]);
    assert_eq!(response.content_type, "application/octet-stream");
    assert_eq!(response.seed_used, None);
    assert_eq!(success_response(None, None, vec![]).seed_used, None);
}

#[test]
fn seed_header_follows_the_rules_of_u64_parsing() {
    let seed = |s: &str| success_response(None, Some(s), vec![]).seed_used;
    assert_eq!(seed("+7"), Some(7));
    assert_eq!(seed("007"), Some(7));
    assert_eq!(seed("0"), Some(0));
    assert_eq!(seed("18446744073709551615"), Some(u64::MAX));
    assert_eq!(seed("18446744073709551616"), None);
    assert_eq!(seed(""), None);
    assert_eq!(seed("+"), None);
    assert_eq!(seed("-1"), None);
    assert_eq!(seed(" 1"), None);
    for s in ["42", "+42", "99999999999999999999", "1a", "++1"] {
        assert_eq!(seed(s), s.parse::<u64>().ok(), "{s}");
    }
}

#[test]
fn generate_sends_the_api_key_header_when_configured() {
    let client = MoldClient::new(
        reqwest::Client::new(),
        "http://127.0.0.1:7680".to_string(),
        Some("secret-key".to_string()),
    );
    assert_eq!(client.api_key(), Some("secret-key"));
    assert_eq!(client.generate_url(), "http://127.0.0.1:7680/api/generate");
    let keyless = MoldClient::new(reqwest::Client::new(), "http://m".to_string(), None);
    assert_eq!(keyless.api_key(), None);
}

fn body(error: &str, code: Option<&str>) -> Option<MoldErrorBody> {
    Some(MoldErrorBody { error: error.to_string(), code: code.map(|c| c.to_string()) })
}

#[test]
fn generate_maps_a_404_model_not_found_response_to_a_named_error() {
    let err = error_response(404, body("model flux-schnell:q8 is not loaded", Some("MODEL_NOT_FOUND")));
    assert!(matches!(err, MoldClientError::ModelNotFound(msg) if msg.contains("flux-schnell")));
}

#[test]
fn generate_maps_a_503_queue_full_response_to_a_named_error() {
    let err = error_response(503, body("generation queue is full", Some("QUEUE_FULL")));
    assert!(matches!(err, MoldClientError::QueueFull));
}

#[test]
fn generate_maps_an_unrecognized_error_response_to_the_generic_backend_error() {
    let err = error_response(500, body("inference crashed", Some("INFERENCE_FAILURE")));
    assert!(matches!(err, MoldClientError::BackendError { status: 500, .. }));
}

#[test]
fn named_codes_only_count_with_their_own_status() {
    let err = error_response(500, body("x", Some("MODEL_NOT_FOUND")));
    assert!(matches!(err, MoldClientError::BackendError { status: 500, .. }));
    let err = error_response(404, body("x", Some("QUEUE_FULL")));
    assert!(matches!(err, MoldClientError::BackendError { status: 404, .. }));
}

#[test]
fn an_unreadable_error_body_is_reported_as_no_error_body() {
    match error_response(502, None) {
        MoldClientError::BackendError { status, code, message } => {
            assert_eq!(status, 502);
            assert_eq!(code, None);
            assert_eq!(message, "(no error body)");
        }
        other => panic!("unexpected {other:?}"),
    }
}

#[test]
fn generate_returns_transport_error_when_mold_is_unreachable() {
    let err = classify_transport_error(false, true, "error sending request".to_string());
    assert!(matches!(err, MoldClientError::Transport(_)));
}

#[test]
fn generate_returns_timeout_when_the_response_body_stalls_past_the_client_timeout() {
    let err = classify_transport_error(true, false, "operation timed out".to_string());
    assert!(matches!(err, MoldClientError::Timeout));
}

#[test]
fn a_connect_timeout_is_a_transport_error() {
    let err = classify_transport_error(true, true, "connect timed out".to_string());
    assert!(matches!(err, MoldClientError::Transport(m) if m == "connect timed out"));
}

#[test]
fn mold_error_messages_name_the_failure() {
    assert_eq!(MoldClientError::QueueFull.message(), "mold serve's own generation queue is full");
    assert_eq!(
        MoldClientError::BackendError {
            status: 500,
            code: Some("INFERENCE_FAILURE".into()),
            message: "inference crashed".into()
        }
        .message(),
        "mold serve rejected the request (status 500, code Some(\"INFERENCE_FAILURE\")): inference crashed"
    );
}

#[test]
fn default_generate_request_sets_nothing() {
    let req = GenerateImageRequest::default();
    assert_eq!(req.prompt, "");
    assert!(req.model.is_none() && req.width.is_none() && req.source_image.is_none());
}
