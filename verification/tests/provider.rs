use std::path::PathBuf;
use std::time::SystemTime;

use aivyx_vision::gpu_lock_client::{lease_from_acquire_body, GpuLockClientError, LeaseId};
use aivyx_vision::image_job::{ImageJob, ImageJobAction, ImageJobEvent};
use aivyx_vision::mold_client::{GenerateImageResponse, MoldClientError};
use aivyx_vision::provider::{
    build_mold_request, extension_for_content_type, map_gpu_lock_error, map_mold_error,
    MoldConfig, MoldProvider, TimedHttpClient,
};
use aivyx_vision::vision::{ImageRequest, ThreeDRequest, VisionError};
use base64::Engine;

fn sample_image_request() -> ImageRequest {
    ImageRequest {
        prompt: "anything".to_string(),
        reference_image: None,
        width: None,
        height: None,
        seed: None,
        style_hint: None,
    }
}

fn lease(id: &str) -> LeaseId {
    lease_from_acquire_body(Ok(id.to_string())).unwrap()
}

fn test_provider(broker_url: &str, mold_url: &str) -> MoldProvider {
    MoldProvider::new(MoldConfig {
        broker_url: broker_url.to_string(),
        mold_url: mold_url.to_string(),
        api_key: None,
        output_dir: PathBuf::from("/tmp/generated"),
    })
    .unwrap()
}

#[test]
fn extension_for_content_type_maps_known_types_and_falls_back_to_bin() {
    assert_eq!(extension_for_content_type("image/png"), "png");
    assert_eq!(extension_for_content_type("image/jpeg"), "jpg");
    assert_eq!(
        extension_for_content_type("application/octet-stream"),
        "bin"
    );
    assert_eq!(extension_for_content_type("image/webp"), "webp");
    assert_eq!(extension_for_content_type("IMAGE/PNG"), "bin");
}

#[test]
fn build_mold_request_appends_the_style_hint_to_the_prompt() {
    let req = ImageRequest {
        prompt: "a mountain".to_string(),
        style_hint: Some("watercolor".to_string()),
        ..sample_image_request()
    };
    let mold_req = build_mold_request(&req, None).unwrap();
    assert_eq!(mold_req.prompt, "a mountain, watercolor");
}

#[test]
fn build_mold_request_passes_size_and_seed_through() {
    let req = ImageRequest {
        width: Some(640),
        height: Some(480),
        seed: Some(9),
        ..sample_image_request()
    };
    let mold_req = build_mold_request(&req, None).unwrap();
    assert_eq!(mold_req.prompt, "anything");
    assert_eq!((mold_req.width, mold_req.height, mold_req.seed), (Some(640), Some(480), Some(9)));
    assert!(mold_req.source_image.is_none() && mold_req.model.is_none());
}

#[test]
fn build_mold_request_base64_encodes_the_reference_image_file() {
    let req = ImageRequest {
        prompt: "edit this".to_string(),
        reference_image: Some(PathBuf::from("ref.png")),
        ..sample_image_request()
    };
    let mold_req = build_mold_request(&req, Some(Ok(vec![1u8, 2, 3, 4]))).unwrap();
    let encoded = mold_req.source_image.unwrap();
    assert_eq!(encoded, "AQIDBA==");
    let decoded = base64::engine::general_purpose::STANDARD.decode(encoded).unwrap();
    assert_eq!(decoded, vec![1, 2, 3, 4]);
}

#[test]
fn build_mold_request_errors_clearly_when_the_reference_image_cannot_be_read() {
    let req = ImageRequest {
        prompt: "edit this".to_string(),
        reference_image: Some(PathBuf::from("/nonexistent/path/ref.png")),
        ..sample_image_request()
    };
    let read_error = "reading reference image \"/nonexistent/path/ref.png\": No such file or directory (os error 2)".to_string();
    let err = build_mold_request(&req, Some(Err(read_error))).unwrap_err();
    assert!(matches!(err, VisionError::Io(_)));
}

#[test]
fn provider_trims_trailing_slashes_from_both_addresses() {
    let provider = test_provider("http://127.0.0.1:8899//", "http://127.0.0.1:7680/");
    assert_eq!(provider.gpu_lock().acquire_url(), "http://127.0.0.1:8899/gpu-lock/acquire");
    assert_eq!(provider.mold().generate_url(), "http://127.0.0.1:7680/api/generate");
    assert_eq!(provider.output_dir(), &PathBuf::from("/tmp/generated"));
}

#[test]
fn provider_from_a_built_client_keeps_its_timeouts_and_trims_addresses() {
    let http = TimedHttpClient {
        client: reqwest::Client::new(),
        connect_timeout_secs: 7,
        read_timeout_secs: 11,
    };
    let provider = MoldProvider::from_client(
        http,
        MoldConfig {
            broker_url: "http://127.0.0.1:8899/".to_string(),
            mold_url: "http://127.0.0.1:7680/".to_string(),
            api_key: Some("k".to_string()),
            output_dir: PathBuf::from("/assets"),
        },
    );
    assert_eq!(provider.gpu_lock().acquire_url(), "http://127.0.0.1:8899/gpu-lock/acquire");
    assert_eq!(provider.gpu_lock().release_url(), "http://127.0.0.1:8899/gpu-lock/release");
    assert_eq!(provider.mold().generate_url(), "http://127.0.0.1:7680/api/generate");
    assert_eq!(provider.mold().api_key(), Some("k"));
    assert_eq!(provider.output_dir(), &PathBuf::from("/assets"));
    assert_eq!((provider.connect_timeout_secs(), provider.read_timeout_secs()), (7, 11));
}

#[test]
fn provider_builds_its_client_with_the_fixed_timeouts() {
    let provider = test_provider("http://b", "http://m");
    assert_eq!(provider.connect_timeout_secs(), 5);
    assert_eq!(provider.read_timeout_secs(), 300);
}

#[test]
fn generate_3d_returns_unsupported_without_touching_the_network() {
    let provider = test_provider("http://127.0.0.1:1", "http://127.0.0.1:1");
    let err = provider
        .generate_3d(ThreeDRequest {
            prompt: "a small statue".to_string(),
            reference_image: None,
            style_hint: None,
        })
        .unwrap_err();
    assert!(matches!(err, VisionError::Unsupported(_)));
}

#[test]
fn gpu_lock_errors_map_to_specific_vision_errors() {
    assert!(matches!(map_gpu_lock_error(GpuLockClientError::Timeout), VisionError::GpuLockTimeout));
    match map_gpu_lock_error(GpuLockClientError::Transport("refused".into())) {
        VisionError::BackendUnreachable(m) => assert_eq!(m, "aivyx-broker: refused"),
        other => panic!("unexpected {other:?}"),
    }
}

#[test]
fn mold_errors_map_to_specific_vision_errors() {
    assert!(matches!(map_mold_error(MoldClientError::Timeout), VisionError::GenerationTimeout));
    match map_mold_error(MoldClientError::ModelNotFound("no model".into())) {
        VisionError::BackendError { status, code, message } => {
            assert_eq!((status, code.as_deref(), message.as_str()), (404, Some("MODEL_NOT_FOUND"), "no model"));
        }
        other => panic!("unexpected {other:?}"),
    }
    match map_mold_error(MoldClientError::QueueFull) {
        VisionError::BackendError { status, code, .. } => {
            assert_eq!((status, code.as_deref()), (503, Some("QUEUE_FULL")));
        }
        other => panic!("unexpected {other:?}"),
    }
    match map_mold_error(MoldClientError::Transport("refused".into())) {
        VisionError::BackendUnreachable(m) => assert_eq!(m, "mold serve: refused"),
        other => panic!("unexpected {other:?}"),
    }
}

fn expect_release(action: ImageJobAction, id: &str) {
    match action {
        ImageJobAction::ReleaseLock(l) => assert_eq!(l.as_str(), id),
        other => panic!("expected a release, got {other:?}"),
    }
}

#[test]
fn generate_image_success_writes_a_file_and_returns_a_generated_asset() {
    let (mut job, first) = ImageJob::start(ImageRequest {
        prompt: "a red circle".to_string(),
        ..sample_image_request()
    }, PathBuf::from("/out"));
    assert!(matches!(first, ImageJobAction::AcquireLock));
    match job.step(ImageJobEvent::LockAcquired(Ok(lease("l-1")))) {
        ImageJobAction::Generate(req) => assert_eq!(req.prompt, "a red circle"),
        other => panic!("unexpected {other:?}"),
    }
    let response = GenerateImageResponse {
        bytes: vec![1, 2, 3, 4],
        content_type: "image/png".to_string(),
        seed_used: Some(7),
    };
    expect_release(job.step(ImageJobEvent::Generated(Ok(response))), "l-1");
    match job.step(ImageJobEvent::LockReleased(Ok(()))) {
        ImageJobAction::WriteAsset { output_dir, extension, bytes } => {
            assert_eq!(output_dir, PathBuf::from("/out"));
            assert_eq!(extension, "png");
            assert_eq!(bytes, vec![1, 2, 3, 4]);
        }
        other => panic!("unexpected {other:?}"),
    }
    let written = PathBuf::from("/out/x.png");
    let now = SystemTime::now();
    match job.step(ImageJobEvent::AssetWritten(Ok((written.clone(), now)))) {
        ImageJobAction::Finish(Ok(asset)) => {
            assert_eq!(asset.backend, "mold");
            assert_eq!(asset.seed_used, Some(7));
            assert_eq!(asset.path, written);
            assert_eq!(asset.path.extension().unwrap(), "png");
            assert_eq!(asset.generated_at, now);
        }
        other => panic!("unexpected {other:?}"),
    }
}

#[test]
fn generate_image_releases_the_lease_even_when_generation_fails() {
    let (mut job, _) = ImageJob::start(sample_image_request(), PathBuf::from("/out"));
    assert!(matches!(job.step(ImageJobEvent::LockAcquired(Ok(lease("l-2")))), ImageJobAction::Generate(_)));
    let failure = MoldClientError::BackendError {
        status: 500,
        code: Some("INFERENCE_FAILURE".to_string()),
        message: "inference crashed".to_string(),
    };
    expect_release(job.step(ImageJobEvent::Generated(Err(failure))), "l-2");
    match job.step(ImageJobEvent::LockReleased(Ok(()))) {
        ImageJobAction::Finish(Err(err)) => {
            assert!(matches!(err, VisionError::BackendError { status: 500, .. }))
        }
        other => panic!("unexpected {other:?}"),
    }
    assert!(!job.expects(&ImageJobEvent::LockReleased(Ok(()))));
}

#[test]
fn generate_image_returns_gpu_lock_timeout_and_never_calls_mold_when_the_lock_is_busy() {
    let (mut job, _) = ImageJob::start(sample_image_request(), PathBuf::from("/out"));
    match job.step(ImageJobEvent::LockAcquired(Err(GpuLockClientError::Timeout))) {
        ImageJobAction::Finish(Err(err)) => assert!(matches!(err, VisionError::GpuLockTimeout)),
        other => panic!("unexpected {other:?}"),
    }
    assert!(!job.expects(&ImageJobEvent::Generated(Err(MoldClientError::Timeout))));
}

#[test]
fn a_failed_release_does_not_fail_the_generation() {
    let (mut job, _) = ImageJob::start(sample_image_request(), PathBuf::from("/out"));
    job.step(ImageJobEvent::LockAcquired(Ok(lease("l-3"))));
    let response = GenerateImageResponse {
        bytes: vec![9],
        content_type: "image/webp".to_string(),
        seed_used: None,
    };
    expect_release(job.step(ImageJobEvent::Generated(Ok(response))), "l-3");
    let rejected = GpuLockClientError::ReleaseRejected("status 404 Not Found: gone".into());
    match job.step(ImageJobEvent::LockReleased(Err(rejected))) {
        ImageJobAction::WriteAsset { extension, .. } => assert_eq!(extension, "webp"),
        other => panic!("unexpected {other:?}"),
    }
}

#[test]
fn an_unreadable_reference_image_still_releases_the_lock() {
    let path = PathBuf::from("/nonexistent/ref.png");
    let (mut job, _) = ImageJob::start(
        ImageRequest { reference_image: Some(path.clone()), ..sample_image_request() },
        PathBuf::from("/out"),
    );
    match job.step(ImageJobEvent::LockAcquired(Ok(lease("l-4")))) {
        ImageJobAction::ReadReference(p) => assert_eq!(p, path),
        other => panic!("unexpected {other:?}"),
    }
    expect_release(job.step(ImageJobEvent::ReferenceRead(Err("no such file".into()))), "l-4");
    match job.step(ImageJobEvent::LockReleased(Ok(()))) {
        ImageJobAction::Finish(Err(VisionError::Io(m))) => assert_eq!(m, "no such file"),
        other => panic!("unexpected {other:?}"),
    }
}

#[test]
fn a_readable_reference_image_is_sent_base64_encoded() {
    let (mut job, _) = ImageJob::start(
        ImageRequest { reference_image: Some(PathBuf::from("r.png")), ..sample_image_request() },
        PathBuf::from("/out"),
    );
    job.step(ImageJobEvent::LockAcquired(Ok(lease("l-5"))));
    match job.step(ImageJobEvent::ReferenceRead(Ok(b"hi".to_vec()))) {
        ImageJobAction::Generate(req) => assert_eq!(req.source_image.as_deref(), Some("aGk=")),
        other => panic!("unexpected {other:?}"),
    }
}

#[test]
fn a_failed_write_is_a_local_io_error() {
    let (mut job, _) = ImageJob::start(sample_image_request(), PathBuf::from("/out"));
    job.step(ImageJobEvent::LockAcquired(Ok(lease("l-6"))));
    let response = GenerateImageResponse { bytes: vec![], content_type: "text/plain".into(), seed_used: None };
    job.step(ImageJobEvent::Generated(Ok(response)));
    match job.step(ImageJobEvent::LockReleased(Ok(()))) {
        ImageJobAction::WriteAsset { extension, .. } => assert_eq!(extension, "bin"),
        other => panic!("unexpected {other:?}"),
    }
    match job.step(ImageJobEvent::AssetWritten(Err("disk full".into()))) {
        ImageJobAction::Finish(Err(VisionError::Io(m))) => assert_eq!(m, "disk full"),
        other => panic!("unexpected {other:?}"),
    }
}
