use std::time::SystemTime;

use aivyx_vision::vision::{
    FakeGenerationProvider, GeneratedAsset, ImageRequest, ThreeDRequest, VisionError,
};

fn asset(path: &str, seed_used: Option<u64>) -> GeneratedAsset {
    GeneratedAsset {
        path: path.into(),
        backend: "fake".to_string(),
        seed_used,
        generated_at: SystemTime::now(),
    }
}

fn image_request(prompt: &str) -> ImageRequest {
    ImageRequest {
        prompt: prompt.to_string(),
        reference_image: None,
        width: None,
        height: None,
        seed: None,
        style_hint: None,
    }
}

#[test]
fn generation_provider_fake_answers_an_image_request() {
    let mut provider = FakeGenerationProvider::with_image_result(Ok(asset("/tmp/fake.png", Some(42))));
    let asset = provider.generate_image(image_request("a red circle")).unwrap();
    assert_eq!(asset.backend, "fake");
    assert_eq!(asset.seed_used, Some(42));
}

#[test]
fn fake_generation_provider_captures_the_image_request_it_was_called_with() {
    let mut provider = FakeGenerationProvider::with_image_result(Ok(asset("/tmp/fake.png", None)));
    provider
        .generate_image(ImageRequest {
            prompt: "a blue square".to_string(),
            reference_image: None,
            width: Some(512),
            height: Some(512),
            seed: None,
            style_hint: Some("watercolor".to_string()),
        })
        .unwrap();
    let captured = provider
        .captured_image_request()
        .expect("must capture the request");
    assert_eq!(captured.prompt, "a blue square");
    assert_eq!(captured.style_hint.as_deref(), Some("watercolor"));
}

#[test]
fn fake_generation_provider_returns_the_configured_error() {
    let mut provider = FakeGenerationProvider::with_image_result(Err(VisionError::GpuLockTimeout));
    let err = provider.generate_image(image_request("anything")).unwrap_err();
    assert!(matches!(err, VisionError::GpuLockTimeout));
}

#[test]
fn fake_generation_provider_serves_3d_results_independently_of_image_results() {
    let mut provider = FakeGenerationProvider::with_3d_result(Ok(asset("/tmp/fake.glb", None)));
    let asset = provider
        .generate_3d(ThreeDRequest {
            prompt: "a small statue".to_string(),
            reference_image: None,
            style_hint: None,
        })
        .unwrap();
    assert_eq!(asset.path, std::path::PathBuf::from("/tmp/fake.glb"));
    assert!(provider.captured_image_request().is_none());
    assert_eq!(provider.captured_3d_request().unwrap().prompt, "a small statue");
}

#[test]
fn fake_generation_provider_captures_nothing_before_a_call() {
    let provider = FakeGenerationProvider::with_image_result(Err(VisionError::GenerationTimeout));
    assert!(provider.captured_image_request().is_none());
    assert!(provider.captured_3d_request().is_none());
}

#[test]
fn vision_error_messages_are_specific_enough_to_act_on() {
    assert_eq!(
        VisionError::GpuLockTimeout.message(),
        "timed out waiting for the GPU lock"
    );
    assert_eq!(
        VisionError::Unsupported("3D generation").message(),
        "this backend does not support 3D generation"
    );
    assert_eq!(
        VisionError::BackendError {
            status: 404,
            code: Some("MODEL_NOT_FOUND".to_string()),
            message: "no such model".to_string(),
        }
        .message(),
        "backend rejected the request: no such model (status 404, code Some(\"MODEL_NOT_FOUND\"))"
    );
}

#[test]
fn vision_error_messages_cover_every_variant() {
    assert_eq!(
        VisionError::BackendUnreachable("mold serve: refused".into()).message(),
        "backend unreachable: mold serve: refused"
    );
    assert_eq!(VisionError::GenerationTimeout.message(), "generation timed out");
    assert_eq!(VisionError::Io("disk full".into()).message(), "local I/O failed: disk full");
    assert_eq!(
        VisionError::BackendError { status: 0, code: None, message: "x".into() }.message(),
        "backend rejected the request: x (status 0, code None)"
    );
    assert_eq!(
        VisionError::BackendError { status: 65535, code: Some("a\"b".into()), message: String::new() }
            .message(),
        "backend rejected the request:  (status 65535, code Some(\"a\\\"b\"))"
    );
}
