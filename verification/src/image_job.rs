//! One image generation through the `mold serve` backend, as a state
//! machine: it decides, from each outcome it is handed, what is to be done
//! next, and the caller does it. The GPU lock is acquired first; mold is
//! only called while the lock is held; the lock is released exactly once
//! after a successful acquisition, whether generation succeeded or failed;
//! the asset is written only after the release.

use std::path::PathBuf;
use std::time::SystemTime;

use vstd::prelude::*;
use vstd::string::StringExecFns;

use crate::gpu_lock_client::{GpuLockClientError, LeaseId};
use crate::mold_client::{GenerateImageRequest, GenerateImageResponse, MoldClientError};
use crate::provider::{
    build_mold_request, extension_for_content_type, extension_of, is_mold_request_for,
    map_gpu_lock_error, map_mold_error, maps_gpu_lock_error, maps_mold_error, mold_request,
    lemma_mold_request_asks_for_the_request, base64_standard,
};
use crate::vision::{GeneratedAsset, ImageRequest, VisionError};

verus! {

/// What the caller is to do next.
#[derive(Debug)]
pub enum ImageJobAction {
    /// Acquire the broker's GPU lock.
    AcquireLock,
    /// Read the reference image file.
    ReadReference(PathBuf),
    /// Send this request to mold.
    Generate(GenerateImageRequest),
    /// Release this lease.
    ReleaseLock(LeaseId),
    /// Create `output_dir` if needed and write `bytes` to a fresh file in it
    /// with this extension.
    WriteAsset { output_dir: PathBuf, extension: &'static str, bytes: Vec<u8> },
    /// The generation is over, with this result.
    Finish(Result<GeneratedAsset, VisionError>),
}

/// The outcome of the action last asked for.
#[derive(Debug)]
pub enum ImageJobEvent {
    LockAcquired(Result<LeaseId, GpuLockClientError>),
    /// The file's bytes, or the text of the read error.
    ReferenceRead(Result<Vec<u8>, String>),
    Generated(Result<GenerateImageResponse, MoldClientError>),
    LockReleased(Result<(), GpuLockClientError>),
    /// The written file's path and the time it was written, or the text of
    /// the failure.
    AssetWritten(Result<(PathBuf, SystemTime), String>),
}

/// Where a generation stands.
#[derive(Debug)]
pub enum ImageJobPhase {
    AwaitingLock,
    AwaitingReference { lease: LeaseId },
    AwaitingGeneration { lease: LeaseId },
    AwaitingRelease { outcome: Result<GenerateImageResponse, VisionError> },
    AwaitingWrite { seed_used: Option<u64> },
    Done,
}

/// `e` is the outcome of the action `a`.
pub open spec fn answers_action(a: ImageJobAction, e: ImageJobEvent) -> bool {
    match a {
        ImageJobAction::AcquireLock => e is LockAcquired,
        ImageJobAction::ReadReference(_) => e is ReferenceRead,
        ImageJobAction::Generate(_) => e is Generated,
        ImageJobAction::ReleaseLock(_) => e is LockReleased,
        ImageJobAction::WriteAsset { .. } => e is AssetWritten,
        ImageJobAction::Finish(_) => false,
    }
}

/// `e` is the outcome a job in `phase` waits for.
pub open spec fn awaits(phase: ImageJobPhase, e: ImageJobEvent) -> bool {
    match phase {
        ImageJobPhase::AwaitingLock => e is LockAcquired,
        ImageJobPhase::AwaitingReference { .. } => e is ReferenceRead,
        ImageJobPhase::AwaitingGeneration { .. } => e is Generated,
        ImageJobPhase::AwaitingRelease { .. } => e is LockReleased,
        ImageJobPhase::AwaitingWrite { .. } => e is AssetWritten,
        ImageJobPhase::Done => false,
    }
}

/// One decision of a generation of `request` into `output_dir`: in `phase`,
/// on outcome `e`, the job moves to `next` and asks for `a`.
pub open spec fn job_step(
    request: ImageRequest,
    output_dir: PathBuf,
    phase: ImageJobPhase,
    e: ImageJobEvent,
    next: ImageJobPhase,
    a: ImageJobAction,
) -> bool {
    match (phase, e) {
        (ImageJobPhase::AwaitingLock, ImageJobEvent::LockAcquired(Err(err))) => {
            &&& next is Done
            &&& a matches ImageJobAction::Finish(Err(v)) && maps_gpu_lock_error(err, v)
        },
        (ImageJobPhase::AwaitingLock, ImageJobEvent::LockAcquired(Ok(lease))) => {
            match request.reference_image {
                Some(path) => {
                    &&& next == ImageJobPhase::AwaitingReference { lease }
                    &&& a == ImageJobAction::ReadReference(path)
                },
                None => {
                    &&& next == ImageJobPhase::AwaitingGeneration { lease }
                    &&& a matches ImageJobAction::Generate(m) && is_mold_request_for(
                        m,
                        request,
                        None,
                    )
                },
            }
        },
        (ImageJobPhase::AwaitingReference { lease }, ImageJobEvent::ReferenceRead(Err(msg))) => {
            &&& next == ImageJobPhase::AwaitingRelease {
                outcome: Err(VisionError::Io(msg)),
            }
            &&& a == ImageJobAction::ReleaseLock(lease)
        },
        (ImageJobPhase::AwaitingReference { lease }, ImageJobEvent::ReferenceRead(Ok(bytes))) => {
            &&& next == ImageJobPhase::AwaitingGeneration { lease }
            &&& a matches ImageJobAction::Generate(m) && is_mold_request_for(
                m,
                request,
                Some(bytes@),
            )
        },
        (ImageJobPhase::AwaitingGeneration { lease }, ImageJobEvent::Generated(r)) => {
            &&& a == ImageJobAction::ReleaseLock(lease)
            &&& next matches ImageJobPhase::AwaitingRelease { outcome } && match (r, outcome) {
                (Ok(resp), Ok(o)) => o == resp,
                (Err(err), Err(v)) => maps_mold_error(err, v),
                _ => false,
            }
        },
        (ImageJobPhase::AwaitingRelease { outcome }, ImageJobEvent::LockReleased(_)) => {
            match outcome {
                Err(v) => {
                    &&& next is Done
                    &&& a == ImageJobAction::Finish(Err(v))
                },
                Ok(resp) => {
                    &&& next == ImageJobPhase::AwaitingWrite { seed_used: resp.seed_used }
                    &&& a matches ImageJobAction::WriteAsset { output_dir: d, extension: x, bytes: b }
                        && d == output_dir && x@ == extension_of(resp.content_type@) && b
                        == resp.bytes
                },
            }
        },
        (ImageJobPhase::AwaitingWrite { .. }, ImageJobEvent::AssetWritten(Err(msg))) => {
            &&& next is Done
            &&& a == ImageJobAction::Finish(Err(VisionError::Io(msg)))
        },
        (ImageJobPhase::AwaitingWrite { seed_used }, ImageJobEvent::AssetWritten(Ok(written))) => {
            &&& next is Done
            &&& a matches ImageJobAction::Finish(Ok(asset)) && asset.path == written.0
                && asset.backend@ == "mold"@ && asset.seed_used == seed_used && asset.generated_at
                == written.1
        },
        _ => false,
    }
}

/// The lease the broker granted, if the first outcome of the run granted
/// one.
pub open spec fn granted_lease(events: Seq<ImageJobEvent>) -> Option<LeaseId> {
    if events.len() > 0 {
        match events[0] {
            ImageJobEvent::LockAcquired(Ok(l)) => Some(l),
            _ => None,
        }
    } else {
        None
    }
}

/// Some action of `h` releases the lock.
pub open spec fn has_release(h: Seq<ImageJobAction>) -> bool {
    exists|k: int| 0 <= k < h.len() && #[trigger] h[k] is ReleaseLock
}

/// The GPU-lock discipline of a run, so far: it began by acquiring the lock;
/// only the granted lease is ever released, and at most once; mold is called
/// at most once; the reference image is read and mold is called only while
/// the granted lease is held (before any release); the asset is written only after the release; and
/// nothing follows the end.
pub open spec fn lock_discipline(h: Seq<ImageJobAction>, events: Seq<ImageJobEvent>) -> bool {
    &&& h.len() >= 1
    &&& h[0] is AcquireLock
    &&& forall|j: int|
        0 <= j < h.len() && #[trigger] h[j] is ReleaseLock ==> granted_lease(events) == Some(
            h[j]->ReleaseLock_0,
        )
    &&& forall|j1: int, j2: int|
        0 <= j1 < h.len() && 0 <= j2 < h.len() && #[trigger] h[j1] is ReleaseLock
            && #[trigger] h[j2] is ReleaseLock ==> j1 == j2
    &&& forall|j1: int, j2: int|
        0 <= j1 < h.len() && 0 <= j2 < h.len() && #[trigger] h[j1] is Generate
            && #[trigger] h[j2] is Generate ==> j1 == j2
    &&& forall|j: int|
        0 <= j < h.len() && (#[trigger] h[j] is Generate || h[j] is ReadReference) ==> {
            &&& granted_lease(events) is Some
            &&& forall|k: int| 0 <= k <= j ==> !(#[trigger] h[k] is ReleaseLock)
        }
    &&& forall|j: int|
        0 <= j < h.len() && #[trigger] h[j] is WriteAsset ==> exists|k: int|
            0 <= k < j && #[trigger] h[k] is ReleaseLock
    &&& forall|j: int| 0 <= j < h.len() && #[trigger] h[j] is Finish ==> j == h.len() - 1
}

/// Where mold's answer stands among a granted run's outcomes: right after the
/// lock, or after the reference image was read.
pub open spec fn generation_index(ev: Seq<ImageJobEvent>) -> int {
    if ev.len() > 1 && ev[1] is ReferenceRead {
        2
    } else {
        1
    }
}

/// `res` is what a run with outcomes `ev` reports: a refused lock as the
/// mapped broker error; an unreadable reference image as a local I/O error;
/// a mold failure as the mapped mold error; a failed write as a local I/O
/// error; and otherwise the written file, attributed to mold, with the seed
/// mold reported and the time it was written. (The release's outcome plays
/// no part.)
pub open spec fn reports_run_result(ev: Seq<ImageJobEvent>, res: Result<GeneratedAsset, VisionError>) -> bool {
    match ev[0] {
        ImageJobEvent::LockAcquired(Err(err)) => res matches Err(v) && maps_gpu_lock_error(err, v),
        _ => match ev[1] {
            ImageJobEvent::ReferenceRead(Err(msg)) => res == Err::<GeneratedAsset, VisionError>(
                VisionError::Io(msg),
            ),
            _ => match ev[generation_index(ev)] {
                ImageJobEvent::Generated(Err(err)) => res matches Err(v) && maps_mold_error(
                    err,
                    v,
                ),
                ImageJobEvent::Generated(Ok(resp)) => match ev[generation_index(ev) + 2] {
                    ImageJobEvent::AssetWritten(Err(msg)) => res == Err::<
                        GeneratedAsset,
                        VisionError,
                    >(VisionError::Io(msg)),
                    ImageJobEvent::AssetWritten(Ok(w)) => res matches Ok(a) && a.path == w.0
                        && a.backend@ == "mold"@ && a.seed_used == resp.seed_used
                        && a.generated_at == w.1,
                    _ => false,
                },
                _ => false,
            },
        },
    }
}

/// A transcript of actions `h` and outcomes `ev` that a job in `phase` can
/// have produced.
spec fn job_consistent(h: Seq<ImageJobAction>, ev: Seq<ImageJobEvent>, phase: ImageJobPhase) -> bool {
    &&& h.len() == ev.len() + 1
    &&& forall|i: int| 0 <= i < ev.len() ==> answers_action(h[i], #[trigger] ev[i])
    &&& lock_discipline(h, ev)
    &&& granted_lease(ev) is None ==> ev.len() <= 1
    &&& match phase {
        ImageJobPhase::AwaitingLock => ev.len() == 0,
        ImageJobPhase::AwaitingReference { lease } => {
            &&& granted_lease(ev) == Some(lease)
            &&& !has_release(h)
            &&& h.last() is ReadReference
            &&& ev.len() == 1
        },
        ImageJobPhase::AwaitingGeneration { lease } => {
            &&& granted_lease(ev) == Some(lease)
            &&& !has_release(h)
            &&& h.last() is Generate
            &&& ev.len() == generation_index(ev)
            &&& ev.len() == 2 ==> ev[1] matches ImageJobEvent::ReferenceRead(Ok(_))
        },
        ImageJobPhase::AwaitingRelease { outcome } => {
            &&& granted_lease(ev) is Some
            &&& h.last() is ReleaseLock
            &&& match ev[1] {
                ImageJobEvent::ReferenceRead(Err(msg)) => {
                    &&& ev.len() == 2
                    &&& outcome == Err::<GenerateImageResponse, VisionError>(VisionError::Io(msg))
                },
                _ => {
                    &&& ev.len() == generation_index(ev) + 1
                    &&& match ev[generation_index(ev)] {
                        ImageJobEvent::Generated(Ok(resp)) => outcome == Ok::<
                            GenerateImageResponse,
                            VisionError,
                        >(resp),
                        ImageJobEvent::Generated(Err(err)) => outcome matches Err(v)
                            && maps_mold_error(err, v),
                        _ => false,
                    }
                },
            }
        },
        ImageJobPhase::AwaitingWrite { seed_used } => {
            &&& granted_lease(ev) is Some
            &&& has_release(h)
            &&& h.last() is WriteAsset
            &&& !(ev[1] matches ImageJobEvent::ReferenceRead(Err(_)))
            &&& ev.len() == generation_index(ev) + 2
            &&& ev[generation_index(ev)] matches ImageJobEvent::Generated(Ok(resp))
                && resp.seed_used == seed_used
        },
        ImageJobPhase::Done => {
            &&& has_release(h) <==> granted_lease(ev) is Some
            &&& h.last() matches ImageJobAction::Finish(res) && reports_run_result(ev, res)
        },
    }
}

/// Every decision keeps a transcript consistent.
proof fn lemma_step_consistent(
    request: ImageRequest,
    output_dir: PathBuf,
    h: Seq<ImageJobAction>,
    ev: Seq<ImageJobEvent>,
    phase: ImageJobPhase,
    e: ImageJobEvent,
    next: ImageJobPhase,
    a: ImageJobAction,
)
    requires
        job_consistent(h, ev, phase),
        awaits(phase, e),
        job_step(request, output_dir, phase, e, next, a),
    ensures
        job_consistent(h.push(a), ev.push(e), next),
{
    let h2 = h.push(a);
    let ev2 = ev.push(e);
    assert(h2[h.len() as int] == a);
    assert(forall|i: int| 0 <= i < h.len() ==> h2[i] == h[i]);
    assert(forall|i: int| 0 <= i < ev.len() ==> ev2[i] == ev[i]);
    if ev.len() > 0 {
        assert(granted_lease(ev2) == granted_lease(ev));
    }
    assert(answers_action(h[ev.len() as int], e));
}

/// Law: whenever a generation asks mold for an image, it asks for the image
/// its request describes: the request's own width and height, its seed, its
/// prompt with the style hint appended; straight after the lock only when
/// the request names no reference image, and then with none; after the
/// reference file was read, with exactly that file's bytes in base64.
pub proof fn lemma_generation_asks_for_the_jobs_request(
    request: ImageRequest,
    output_dir: PathBuf,
    phase: ImageJobPhase,
    e: ImageJobEvent,
    next: ImageJobPhase,
    m: GenerateImageRequest,
)
    requires
        job_step(request, output_dir, phase, e, next, ImageJobAction::Generate(m)),
    ensures
        m.width == request.width,
        m.height == request.height,
        m.seed == request.seed,
        request.style_hint matches Some(h) ==> m.prompt@ == request.prompt@ + ", "@ + h@,
        request.style_hint is None ==> m.prompt@ == request.prompt@,
        e is LockAcquired ==> (request.reference_image is None && m.source_image is None),
        e matches ImageJobEvent::ReferenceRead(Ok(b)) ==> (m.source_image matches Some(s) && s@
            == base64_standard(b@)),
        phase is AwaitingLock || phase is AwaitingReference,
{
    match (phase, e) {
        (ImageJobPhase::AwaitingLock, ImageJobEvent::LockAcquired(Ok(_))) => {
            lemma_mold_request_asks_for_the_request(m, request, None);
        },
        (ImageJobPhase::AwaitingReference { .. }, ImageJobEvent::ReferenceRead(Ok(b))) => {
            lemma_mold_request_asks_for_the_request(m, request, Some(b@));
        },
        _ => {},
    }
}

/// Law: once the lock is granted, the generation goes on with the granted
/// lease: it reads the request's reference image where it names one, and
/// otherwise asks mold at once for the request's own image (its width, its
/// height, its seed, its prompt with the style hint appended, no source
/// image); once the reference image was read, mold is asked for the same
/// image with those bytes in base64 as its source.
pub proof fn lemma_granted_lock_leads_to_generation(
    request: ImageRequest,
    output_dir: PathBuf,
    phase: ImageJobPhase,
    e: ImageJobEvent,
    next: ImageJobPhase,
    a: ImageJobAction,
)
    requires
        job_step(request, output_dir, phase, e, next, a),
    ensures
        match (phase, e) {
            (ImageJobPhase::AwaitingLock, ImageJobEvent::LockAcquired(Ok(l))) => match request.reference_image {
                Some(p) => a == ImageJobAction::ReadReference(p) && next
                    == ImageJobPhase::AwaitingReference { lease: l },
                None => {
                    &&& next == ImageJobPhase::AwaitingGeneration { lease: l }
                    &&& a is Generate
                    &&& a->Generate_0.width == request.width
                    &&& a->Generate_0.height == request.height
                    &&& a->Generate_0.seed == request.seed
                    &&& a->Generate_0.source_image is None
                    &&& request.style_hint matches Some(h) ==> a->Generate_0.prompt@ == request.prompt@
                        + ", "@ + h@
                    &&& request.style_hint is None ==> a->Generate_0.prompt@ == request.prompt@
                },
            },
            (ImageJobPhase::AwaitingReference { lease }, ImageJobEvent::ReferenceRead(Ok(b))) => {
                &&& next == ImageJobPhase::AwaitingGeneration { lease }
                &&& a is Generate
                &&& a->Generate_0.width == request.width
                &&& a->Generate_0.height == request.height
                &&& a->Generate_0.seed == request.seed
                &&& a->Generate_0.source_image matches Some(s) && s@ == base64_standard(b@)
                &&& request.style_hint matches Some(h) ==> a->Generate_0.prompt@ == request.prompt@
                    + ", "@ + h@
                &&& request.style_hint is None ==> a->Generate_0.prompt@ == request.prompt@
            },
            _ => true,
        },
{
    if a is Generate {
        lemma_generation_asks_for_the_jobs_request(request, output_dir, phase, e, next, a->Generate_0);
    }
}

/// Law: the reference image read is the request's own, read straight after
/// the lock is granted; and the file written is mold's image: the bytes of
/// mold's answer, into the job's output directory, with the extension of
/// mold's content type (`png`, `jpg`, `webp`, else `bin`), once the lock was
/// released after a successful generation.
pub proof fn lemma_reads_and_writes_are_the_jobs_own(
    request: ImageRequest,
    output_dir: PathBuf,
    phase: ImageJobPhase,
    e: ImageJobEvent,
    next: ImageJobPhase,
    a: ImageJobAction,
)
    requires
        job_step(request, output_dir, phase, e, next, a),
    ensures
        a matches ImageJobAction::ReadReference(p) ==> (request.reference_image == Some(p)
            && phase is AwaitingLock && e matches ImageJobEvent::LockAcquired(Ok(_))),
        a matches ImageJobAction::WriteAsset { output_dir: d, extension: x, bytes: b } ==> {
            &&& d == output_dir
            &&& e is LockReleased
            &&& phase matches ImageJobPhase::AwaitingRelease { outcome: Ok(resp) }
            &&& b == resp.bytes
            &&& resp.content_type@ == "image/png"@ ==> x@ == "png"@
            &&& resp.content_type@ != "image/png"@ && resp.content_type@ == "image/jpeg"@ ==> x@
                == "jpg"@
            &&& resp.content_type@ != "image/png"@ && resp.content_type@ != "image/jpeg"@
                && resp.content_type@ == "image/webp"@ ==> x@ == "webp"@
            &&& resp.content_type@ != "image/png"@ && resp.content_type@ != "image/jpeg"@
                && resp.content_type@ != "image/webp"@ ==> x@ == "bin"@
        },
{
}

/// Law: the lease a generation releases is the one it holds: a release is
/// asked for only while waiting for the reference image or for mold, and
/// for exactly the lease held then.
pub proof fn lemma_release_is_of_the_held_lease(
    request: ImageRequest,
    output_dir: PathBuf,
    phase: ImageJobPhase,
    e: ImageJobEvent,
    next: ImageJobPhase,
    l: LeaseId,
)
    requires
        job_step(request, output_dir, phase, e, next, ImageJobAction::ReleaseLock(l)),
    ensures
        match phase {
            ImageJobPhase::AwaitingReference { lease } => lease == l,
            ImageJobPhase::AwaitingGeneration { lease } => lease == l,
            _ => false,
        },
{
}

/// Law: a release's own outcome never changes what the generation does
/// next; a failed release is not an error of the generation.
pub proof fn lemma_release_outcome_is_ignored(
    request: ImageRequest,
    output_dir: PathBuf,
    phase: ImageJobPhase,
    r1: Result<(), GpuLockClientError>,
    r2: Result<(), GpuLockClientError>,
    next: ImageJobPhase,
    a: ImageJobAction,
)
    requires
        job_step(request, output_dir, phase, ImageJobEvent::LockReleased(r1), next, a),
    ensures
        job_step(request, output_dir, phase, ImageJobEvent::LockReleased(r2), next, a),
{
}

/// One image generation in progress.
pub struct ImageJob {
    request: ImageRequest,
    output_dir: PathBuf,
    phase: ImageJobPhase,
    actions: Ghost<Seq<ImageJobAction>>,
    events: Ghost<Seq<ImageJobEvent>>,
}

impl ImageJob {
    /// The request being generated.
    pub closed spec fn request(&self) -> ImageRequest {
        self.request
    }

    /// Where the asset is to be written.
    pub closed spec fn dir(&self) -> PathBuf {
        self.output_dir
    }

    /// Where the generation stands.
    pub closed spec fn phase(&self) -> ImageJobPhase {
        self.phase
    }

    /// Every action asked for so far, in order.
    pub closed spec fn transcript(&self) -> Seq<ImageJobAction> {
        self.actions@
    }

    /// Every outcome handed in so far, in order.
    pub closed spec fn outcomes(&self) -> Seq<ImageJobEvent> {
        self.events@
    }

    /// The job's internal consistency: its transcript alternates actions and
    /// their outcomes, keeps the lock discipline, and matches its phase.
    pub closed spec fn wf(&self) -> bool {
        job_consistent(self.actions@, self.events@, self.phase)
    }

    /// Law: at every point of a generation, the GPU-lock discipline holds
    /// (see `lock_discipline`): mold is only ever called while the granted
    /// lease is held and at most once, and that lease is released at most
    /// once.
    pub proof fn lemma_lock_discipline_holds(&self)
        requires
            self.wf(),
        ensures
            lock_discipline(self.transcript(), self.outcomes()),
    {
    }

    /// Law: a finished generation ended with its result, released the
    /// granted lease if the broker granted one, and, if the broker refused
    /// the lock, did nothing but ask for it and report the refusal.
    pub proof fn lemma_finished_job_released_its_lock(&self)
        requires
            self.wf(),
            self.phase() is Done,
        ensures
            lock_discipline(self.transcript(), self.outcomes()),
            self.transcript().last() is Finish,
            granted_lease(self.outcomes()) is Some ==> has_release(self.transcript()),
            granted_lease(self.outcomes()) is None ==> self.transcript().len() == 2,
            self.transcript().last() matches ImageJobAction::Finish(res) && reports_run_result(
                self.outcomes(),
                res,
            ),
    {
    }

    /// Begins generating `request` into `output_dir`: the first thing to do
    /// is to acquire the GPU lock.
    pub fn start(request: ImageRequest, output_dir: PathBuf) -> (r: (ImageJob, ImageJobAction))
        ensures
            r.0.wf(),
            r.0.request() == request,
            r.0.dir() == output_dir,
            r.0.phase() is AwaitingLock,
            r.1 is AcquireLock,
            r.0.transcript() == seq![r.1],
            r.0.outcomes() == Seq::<ImageJobEvent>::empty(),
    {
        let ghost first = seq![ImageJobAction::AcquireLock];
        let job = ImageJob {
            request,
            output_dir,
            phase: ImageJobPhase::AwaitingLock,
            actions: Ghost(first),
            events: Ghost(Seq::empty()),
        };
        (job, ImageJobAction::AcquireLock)
    }

    /// Whether the job waits for `event` (it waits for nothing once done).
    pub fn expects(&self, event: &ImageJobEvent) -> (r: bool)
        ensures
            r == awaits(self.phase(), *event),
    {
        match (&self.phase, event) {
            (ImageJobPhase::AwaitingLock, ImageJobEvent::LockAcquired(_)) => true,
            (ImageJobPhase::AwaitingReference { .. }, ImageJobEvent::ReferenceRead(_)) => true,
            (ImageJobPhase::AwaitingGeneration { .. }, ImageJobEvent::Generated(_)) => true,
            (ImageJobPhase::AwaitingRelease { .. }, ImageJobEvent::LockReleased(_)) => true,
            (ImageJobPhase::AwaitingWrite { .. }, ImageJobEvent::AssetWritten(_)) => true,
            _ => false,
        }
    }

    /// Takes in the outcome of the last action and decides the next one.
    pub fn step(&mut self, event: ImageJobEvent) -> (a: ImageJobAction)
        requires
            old(self).wf(),
            awaits(old(self).phase(), event),
        ensures
            final(self).wf(),
            job_step(old(self).request(), old(self).dir(), old(self).phase(), event, final(self).phase(), a),
            final(self).request() == old(self).request(),
            final(self).dir() == old(self).dir(),
            final(self).transcript() == old(self).transcript().push(a),
            final(self).outcomes() == old(self).outcomes().push(event),
    {
        let ghost old_h = self.actions@;
        let ghost old_ev = self.events@;
        let ghost ev_copy = event;
        let mut phase = ImageJobPhase::Done;
        std::mem::swap(&mut phase, &mut self.phase);
        let (next, action) = match (phase, event) {
            (ImageJobPhase::AwaitingLock, ImageJobEvent::LockAcquired(Err(err))) => {
                (ImageJobPhase::Done, ImageJobAction::Finish(Err(map_gpu_lock_error(err))))
            },
            (ImageJobPhase::AwaitingLock, ImageJobEvent::LockAcquired(Ok(lease))) => {
                match &self.request.reference_image {
                    Some(path) => (
                        ImageJobPhase::AwaitingReference { lease },
                        ImageJobAction::ReadReference(path.clone()),
                    ),
                    None => (
                        ImageJobPhase::AwaitingGeneration { lease },
                        ImageJobAction::Generate(mold_request(&self.request, None)),
                    ),
                }
            },
            (ImageJobPhase::AwaitingReference { lease }, ImageJobEvent::ReferenceRead(read)) => {
                match build_mold_request(&self.request, Some(read)) {
                    Ok(m) => (
                        ImageJobPhase::AwaitingGeneration { lease },
                        ImageJobAction::Generate(m),
                    ),
                    Err(v) => (
                        ImageJobPhase::AwaitingRelease { outcome: Err(v) },
                        ImageJobAction::ReleaseLock(lease),
                    ),
                }
            },
            (ImageJobPhase::AwaitingGeneration { lease }, ImageJobEvent::Generated(r)) => {
                let outcome = match r {
                    Ok(resp) => Ok(resp),
                    Err(err) => Err(map_mold_error(err)),
                };
                (ImageJobPhase::AwaitingRelease { outcome }, ImageJobAction::ReleaseLock(lease))
            },
            (ImageJobPhase::AwaitingRelease { outcome }, ImageJobEvent::LockReleased(_)) => {
                match outcome {
                    Err(v) => (ImageJobPhase::Done, ImageJobAction::Finish(Err(v))),
                    Ok(resp) => {
                        let extension = extension_for_content_type(resp.content_type.as_str());
                        (
                            ImageJobPhase::AwaitingWrite { seed_used: resp.seed_used },
                            ImageJobAction::WriteAsset {
                                output_dir: self.output_dir.clone(),
                                extension,
                                bytes: resp.bytes,
                            },
                        )
                    },
                }
            },
            (ImageJobPhase::AwaitingWrite { .. }, ImageJobEvent::AssetWritten(Err(msg))) => {
                (ImageJobPhase::Done, ImageJobAction::Finish(Err(VisionError::Io(msg))))
            },
            (
                ImageJobPhase::AwaitingWrite { seed_used },
                ImageJobEvent::AssetWritten(Ok((path, generated_at))),
            ) => {
                let asset = GeneratedAsset {
                    path,
                    backend: String::from_str("mold"),
                    seed_used,
                    generated_at,
                };
                (ImageJobPhase::Done, ImageJobAction::Finish(Ok(asset)))
            },
            (phase, _) => {
                assert(false);
                (phase, ImageJobAction::AcquireLock)
            },
        };
        self.phase = next;
        proof {
            lemma_step_consistent(
                self.request,
                self.output_dir,
                old_h,
                old_ev,
                old(self).phase,
                ev_copy,
                self.phase,
                action,
            );
            self.actions@ = old_h.push(action);
            self.events@ = old_ev.push(ev_copy);
        }
        action
    }
}

} // verus!
