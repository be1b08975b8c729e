//! The backend-agnostic generation data model: requests, the generated
//! asset, the error every backend reports, and a scripted test double of a
//! generation backend.

use std::path::PathBuf;
use std::time::SystemTime;

use vstd::prelude::*;
use vstd::string::StringExecFns;

use crate::text::{debug_quoted, debug_text, decimal_digits, decimal_text};

verus! {

/// Backend-agnostic image generation request. Each backend translates these
/// fields into its own request shape.
#[derive(Debug, Clone)]
pub struct ImageRequest {
    pub prompt: String,
    /// A local file to use for image-to-image generation.
    pub reference_image: Option<PathBuf>,
    pub width: Option<u32>,
    pub height: Option<u32>,
    pub seed: Option<u64>,
    /// A free-text style nudge such as "watercolor"; backends without a
    /// style parameter fold it into the prompt they send.
    pub style_hint: Option<String>,
}

/// Backend-agnostic 3D generation request.
#[derive(Debug, Clone)]
pub struct ThreeDRequest {
    pub prompt: String,
    pub reference_image: Option<PathBuf>,
    pub style_hint: Option<String>,
}

/// The result of a successful generation: where the file was written, and
/// metadata about how it was made.
#[derive(Debug, Clone)]
pub struct GeneratedAsset {
    pub path: PathBuf,
    /// Which backend produced the asset, e.g. `"mold"`.
    pub backend: String,
    pub seed_used: Option<u64>,
    pub generated_at: SystemTime,
}

/// Everything that can go wrong generating an asset. Unreachable backend,
/// unsupported domain, generation timeout and GPU-lock timeout are kept
/// apart because the fix for each differs.
#[derive(Debug)]
#[non_exhaustive]
pub enum VisionError {
    BackendUnreachable(String),
    Unsupported(&'static str),
    GenerationTimeout,
    GpuLockTimeout,
    /// The backend answered but rejected the request for its own reason;
    /// `code` is its machine-readable error code, when it has one.
    BackendError { status: u16, code: Option<String>, message: String },
    /// A failure of this machine's filesystem, not of the backend.
    Io(String),
}

/// How an optional string is written by `Debug`: `None`, or `Some(..)`
/// around the quoted text.
pub open spec fn optional_debug_text(code: Option<String>) -> Seq<char> {
    match code {
        None => "None"@,
        Some(c) => "Some("@ + debug_quoted(c@) + ")"@,
    }
}

/// The human-readable message of each error.
pub open spec fn vision_error_text(e: VisionError) -> Seq<char> {
    match e {
        VisionError::BackendUnreachable(m) => "backend unreachable: "@ + m@,
        VisionError::Unsupported(what) => "this backend does not support "@ + what@,
        VisionError::GenerationTimeout => "generation timed out"@,
        VisionError::GpuLockTimeout => "timed out waiting for the GPU lock"@,
        VisionError::BackendError { status, code, message } => "backend rejected the request: "@
            + message@ + " (status "@ + decimal_digits(status as nat) + ", code "@
            + optional_debug_text(code) + ")"@,
        VisionError::Io(m) => "local I/O failed: "@ + m@,
    }
}

impl VisionError {
    /// The error's message, specific enough for an operator to act on.
    pub fn message(&self) -> (r: String)
        ensures
            r@ == vision_error_text(*self),
    {
        match self {
            VisionError::BackendUnreachable(m) => {
                let mut r = String::from_str("backend unreachable: ");
                r.append(m.as_str());
                r
            },
            VisionError::Unsupported(what) => {
                let mut r = String::from_str("this backend does not support ");
                r.append(what);
                r
            },
            VisionError::GenerationTimeout => String::from_str("generation timed out"),
            VisionError::GpuLockTimeout => String::from_str("timed out waiting for the GPU lock"),
            VisionError::BackendError { status, code, message } => {
                let mut r = String::from_str("backend rejected the request: ");
                r.append(message.as_str());
                r.append(" (status ");
                let digits = decimal_text(*status as u64);
                r.append(digits.as_str());
                r.append(", code ");
                match code {
                    None => r.append("None"),
                    Some(c) => {
                        r.append("Some(");
                        let quoted = debug_text(c.as_str());
                        r.append(quoted.as_str());
                        r.append(")");
                    },
                }
                r.append(")");
                r
            },
            VisionError::Io(m) => {
                let mut r = String::from_str("local I/O failed: ");
                r.append(m.as_str());
                r
            },
        }
    }
}


/// A copy of a request that is equal to it.
fn copy_image_request(req: &ImageRequest) -> (r: ImageRequest)
    ensures
        r == *req,
{
    ImageRequest {
        prompt: req.prompt.clone(),
        reference_image: match &req.reference_image {
            Some(p) => Some(p.clone()),
            None => None,
        },
        width: req.width,
        height: req.height,
        seed: req.seed,
        style_hint: match &req.style_hint {
            Some(h) => Some(h.clone()),
            None => None,
        },
    }
}

/// A copy of a 3D request that is equal to it.
fn copy_3d_request(req: &ThreeDRequest) -> (r: ThreeDRequest)
    ensures
        r == *req,
{
    ThreeDRequest {
        prompt: req.prompt.clone(),
        reference_image: match &req.reference_image {
            Some(p) => Some(p.clone()),
            None => None,
        },
        style_hint: match &req.style_hint {
            Some(h) => Some(h.clone()),
            None => None,
        },
    }
}

/// One request a test double was called with.
pub enum FakeCall {
    Image(ImageRequest),
    ThreeD(ThreeDRequest),
}

/// The most recent image request among `calls`, if any.
pub open spec fn last_image_request_in(calls: Seq<FakeCall>) -> Option<ImageRequest>
    decreases calls.len(),
{
    if calls.len() == 0 {
        None
    } else {
        match calls.last() {
            FakeCall::Image(r) => Some(r),
            FakeCall::ThreeD(_) => last_image_request_in(calls.drop_last()),
        }
    }
}

/// The most recent 3D request among `calls`, if any.
pub open spec fn last_3d_request_in(calls: Seq<FakeCall>) -> Option<ThreeDRequest>
    decreases calls.len(),
{
    if calls.len() == 0 {
        None
    } else {
        match calls.last() {
            FakeCall::ThreeD(r) => Some(r),
            FakeCall::Image(_) => last_3d_request_in(calls.drop_last()),
        }
    }
}

/// Law: what a test double reports as captured is the latest request of its
/// own domain: a new image request becomes the captured image request and
/// leaves the captured 3D request as it was, and the other way round; a
/// double never called has captured nothing.
pub proof fn lemma_capture_keeps_the_latest_request(
    calls: Seq<FakeCall>,
    image: ImageRequest,
    threed: ThreeDRequest,
)
    ensures
        last_image_request_in(calls.push(FakeCall::Image(image))) == Some(image),
        last_3d_request_in(calls.push(FakeCall::Image(image))) == last_3d_request_in(calls),
        last_3d_request_in(calls.push(FakeCall::ThreeD(threed))) == Some(threed),
        last_image_request_in(calls.push(FakeCall::ThreeD(threed))) == last_image_request_in(calls),
        last_image_request_in(Seq::<FakeCall>::empty()) is None,
        last_3d_request_in(Seq::<FakeCall>::empty()) is None,
{
    assert(calls.push(FakeCall::Image(image)).drop_last() =~= calls);
    assert(calls.push(FakeCall::ThreeD(threed)).drop_last() =~= calls);
}

/// The requests a test double was called with, and copies of the latest
/// of each domain.
struct CallRecord {
    image: Option<ImageRequest>,
    threed: Option<ThreeDRequest>,
    calls: Ghost<Seq<FakeCall>>,
}

impl CallRecord {
    /// The copies kept are the most recent requests of each domain.
    #[verifier::type_invariant]
    spec fn keeps_latest(&self) -> bool {
        &&& self.image == last_image_request_in(self.calls@)
        &&& self.threed == last_3d_request_in(self.calls@)
    }

    spec fn calls(&self) -> Seq<FakeCall> {
        self.calls@
    }

    fn empty() -> (r: CallRecord)
        ensures
            r.calls() == Seq::<FakeCall>::empty(),
    {
        CallRecord { image: None, threed: None, calls: Ghost(Seq::empty()) }
    }

    fn after_image(&self, req: ImageRequest) -> (r: CallRecord)
        ensures
            r.calls() == self.calls().push(FakeCall::Image(req)),
    {
        proof {
            use_type_invariant(self);
        }
        let threed = match &self.threed {
            Some(t) => Some(copy_3d_request(t)),
            None => None,
        };
        let ghost calls = self.calls@.push(FakeCall::Image(req));
        assert(calls.drop_last() =~= self.calls@);
        CallRecord { image: Some(req), threed, calls: Ghost(calls) }
    }

    fn after_3d(&self, req: ThreeDRequest) -> (r: CallRecord)
        ensures
            r.calls() == self.calls().push(FakeCall::ThreeD(req)),
    {
        proof {
            use_type_invariant(self);
        }
        let image = match &self.image {
            Some(i) => Some(copy_image_request(i)),
            None => None,
        };
        let ghost calls = self.calls@.push(FakeCall::ThreeD(req));
        assert(calls.drop_last() =~= self.calls@);
        CallRecord { image, threed: Some(req), calls: Ghost(calls) }
    }

    fn latest_image(&self) -> (r: Option<ImageRequest>)
        ensures
            r == last_image_request_in(self.calls()),
    {
        proof {
            use_type_invariant(self);
        }
        match &self.image {
            Some(req) => Some(copy_image_request(req)),
            None => None,
        }
    }

    fn latest_3d(&self) -> (r: Option<ThreeDRequest>)
        ensures
            r == last_3d_request_in(self.calls()),
    {
        proof {
            use_type_invariant(self);
        }
        match &self.threed {
            Some(req) => Some(copy_3d_request(req)),
            None => None,
        }
    }
}

/// A test double for a generation backend: it answers each domain with the
/// result it was configured with, once, and records the request it was
/// called with so a caller's tests can check what was sent.
pub struct FakeGenerationProvider {
    image_result: Option<Result<GeneratedAsset, VisionError>>,
    threed_result: Option<Result<GeneratedAsset, VisionError>>,
    record: CallRecord,
}

impl FakeGenerationProvider {
    /// The image result still waiting to be handed out.
    pub closed spec fn pending_image_result(&self) -> Option<Result<GeneratedAsset, VisionError>> {
        self.image_result
    }

    /// The 3D result still waiting to be handed out.
    pub closed spec fn pending_3d_result(&self) -> Option<Result<GeneratedAsset, VisionError>> {
        self.threed_result
    }

    /// Every request the fake was called with, in order.
    pub closed spec fn calls(&self) -> Seq<FakeCall> {
        self.record.calls()
    }

    /// A fake that answers one image request with `result`, and has no 3D
    /// result configured.
    pub fn with_image_result(result: Result<GeneratedAsset, VisionError>) -> (f: Self)
        ensures
            f.pending_image_result() == Some(result),
            f.pending_3d_result() is None,
            f.calls() == Seq::<FakeCall>::empty(),
    {
        FakeGenerationProvider {
            image_result: Some(result),
            threed_result: None,
            record: CallRecord::empty(),
        }
    }

    /// A fake that answers one 3D request with `result`, and has no image
    /// result configured.
    pub fn with_3d_result(result: Result<GeneratedAsset, VisionError>) -> (f: Self)
        ensures
            f.pending_image_result() is None,
            f.pending_3d_result() == Some(result),
            f.calls() == Seq::<FakeCall>::empty(),
    {
        FakeGenerationProvider {
            image_result: None,
            threed_result: Some(result),
            record: CallRecord::empty(),
        }
    }

    /// Whether an image result is still waiting to be handed out.
    pub fn has_image_result(&self) -> (r: bool)
        ensures
            r == self.pending_image_result() is Some,
    {
        self.image_result.is_some()
    }

    /// Whether a 3D result is still waiting to be handed out.
    pub fn has_3d_result(&self) -> (r: bool)
        ensures
            r == self.pending_3d_result() is Some,
    {
        self.threed_result.is_some()
    }

    /// A copy of the most recent image request received: `None` if the fake
    /// was never asked for an image.
    pub fn captured_image_request(&self) -> (r: Option<ImageRequest>)
        ensures
            r == last_image_request_in(self.calls()),
    {
        self.record.latest_image()
    }

    /// A copy of the most recent 3D request received: `None` if the fake was
    /// never asked for a 3D asset.
    pub fn captured_3d_request(&self) -> (r: Option<ThreeDRequest>)
        ensures
            r == last_3d_request_in(self.calls()),
    {
        self.record.latest_3d()
    }

    /// Records `req` and hands out the configured image result. It must
    /// still hold one: it is given out once only.
    pub fn generate_image(&mut self, req: ImageRequest) -> (r: Result<GeneratedAsset, VisionError>)
        requires
            old(self).pending_image_result() is Some,
        ensures
            Some(r) == old(self).pending_image_result(),
            final(self).pending_image_result() is None,
            final(self).pending_3d_result() == old(self).pending_3d_result(),
            final(self).calls() == old(self).calls().push(FakeCall::Image(req)),
    {
        self.record = self.record.after_image(req);
        self.image_result.take().unwrap()
    }

    /// Records `req` and hands out the configured 3D result. It must still
    /// hold one: it is given out once only.
    pub fn generate_3d(&mut self, req: ThreeDRequest) -> (r: Result<GeneratedAsset, VisionError>)
        requires
            old(self).pending_3d_result() is Some,
        ensures
            Some(r) == old(self).pending_3d_result(),
            final(self).pending_3d_result() is None,
            final(self).pending_image_result() == old(self).pending_image_result(),
            final(self).calls() == old(self).calls().push(FakeCall::ThreeD(req)),
    {
        self.record = self.record.after_3d(req);
        self.threed_result.take().unwrap()
    }
}

} // verus!
