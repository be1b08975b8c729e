//! Aivyx-Vision: sanitized, LLM-prompted SVG generation; the backend-agnostic
//! generation data model; and the decision logic of the `mold serve` image
//! backend with its GPU-lock coordination through aivyx-broker.

pub mod foreign;
pub mod gpu_lock_client;
pub mod image_job;
pub mod mold_client;
pub mod provider;
pub mod svg;
pub mod text;
pub mod vision;

pub use gpu_lock_client::{GpuLockClient, GpuLockClientError, LeaseId};
pub use mold_client::{GenerateImageRequest, GenerateImageResponse, MoldClient, MoldClientError};
pub use provider::{MoldConfig, MoldProvider};
pub use svg::{SvgGenerationError, TextCompleterError};
pub use vision::{
    FakeGenerationProvider, GeneratedAsset, ImageRequest, ThreeDRequest, VisionError,
};
