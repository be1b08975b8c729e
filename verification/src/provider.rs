//! The `mold serve` image backend: its configuration, how a backend-agnostic
//! request becomes a mold request, how client errors become `VisionError`s,
//! and the decisions of one image generation — acquire the GPU lock,
//! generate, always release the lock, write the asset — as a state machine
//! whose actions the caller performs.

use std::path::PathBuf;

use vstd::prelude::*;
use vstd::string::StringExecFns;

use crate::gpu_lock_client::{GpuLockClient, GpuLockClientError};
use crate::mold_client::{GenerateImageRequest, MoldClient, MoldClientError};
use crate::text::{str_equal, trim_trailing, trim_trailing_slashes};
use crate::vision::{GeneratedAsset, ImageRequest, ThreeDRequest, VisionError};

verus! {

/// Seconds allowed for connecting to the broker or to mold.
pub const CONNECT_TIMEOUT_SECS: u64 = 5;

/// Seconds allowed between reads of one answer: generation is real GPU work,
/// and a cold generation routinely takes minutes.
pub const MOLD_READ_TIMEOUT_SECS: u64 = 300;

/// Where the broker and mold are, the optional mold API key, and the
/// directory generated files are written to (created when missing).
pub struct MoldConfig {
    pub broker_url: String,
    pub mold_url: String,
    pub api_key: Option<String>,
    pub output_dir: PathBuf,
}

/// An HTTP client, with the timeouts it was built with.
pub struct TimedHttpClient {
    pub client: reqwest::Client,
    pub connect_timeout_secs: u64,
    pub read_timeout_secs: u64,
}

/// Builds reqwest's HTTP client with the given connect and read timeouts
/// (`ClientBuilder::connect_timeout`, `read_timeout`, `build`), and returns
/// it with those timeouts. Claimed: a built client comes back with the
/// timeouts it was given. Not claimed: whether building succeeds, which
/// depends on the machine (TLS and DNS resolver set-up), nor the error's
/// display text.
#[verifier::external_body]
fn build_http_client(connect_timeout_secs: u64, read_timeout_secs: u64) -> (r: Result<
    TimedHttpClient,
    String,
>)
    ensures
        r matches Ok(c) ==> c.connect_timeout_secs == connect_timeout_secs
            && c.read_timeout_secs == read_timeout_secs,
{
    let built = reqwest::Client::builder().connect_timeout(
        std::time::Duration::from_secs(connect_timeout_secs),
    ).read_timeout(std::time::Duration::from_secs(read_timeout_secs)).build();
    match built {
        Ok(client) => Ok(TimedHttpClient { client, connect_timeout_secs, read_timeout_secs }),
        Err(e) => Err(e.to_string()),
    }
}

/// `s` begins with `prefix`.
pub open spec fn starts_with(s: Seq<char>, prefix: Seq<char>) -> bool {
    prefix.len() <= s.len() && s.subrange(0, prefix.len() as int) == prefix
}

/// Law: a trimmed base address is a prefix of the configured one that does
/// not end in `/`, and only slashes were cut off, so joining
/// `"/gpu-lock/..."` or `"/api/generate"` to it never produces `//` at the
/// join and never loses any other part of the address.
pub proof fn lemma_trimmed_address_has_no_trailing_slash(s: Seq<char>)
    ensures
        trim_trailing(s, '/').len() <= s.len(),
        trim_trailing(s, '/') == s.subrange(0, trim_trailing(s, '/').len() as int),
        trim_trailing(s, '/').len() > 0 ==> trim_trailing(s, '/').last() != '/',
        forall|j: int| trim_trailing(s, '/').len() <= j < s.len() ==> s[j] == '/',
    decreases s.len(),
{
    if s.len() > 0 && s.last() == '/' {
        lemma_trimmed_address_has_no_trailing_slash(s.drop_last());
        let t = trim_trailing(s.drop_last(), '/');
        assert(s.drop_last().subrange(0, t.len() as int) =~= s.subrange(0, t.len() as int));
        assert forall|j: int| t.len() <= j < s.len() implies s[j] == '/' by {
            if j < s.len() - 1 {
                assert(s[j] == s.drop_last()[j]);
            }
        }
    } else {
        assert(s.subrange(0, s.len() as int) =~= s);
    }
}

/// The `mold serve` image backend, coordinated through the broker's GPU lock.
pub struct MoldProvider {
    gpu_lock: GpuLockClient,
    mold: MoldClient,
    output_dir: PathBuf,
    connect_timeout_secs: u64,
    read_timeout_secs: u64,
}

impl MoldProvider {
    /// The broker client.
    pub closed spec fn lock_client(&self) -> GpuLockClient {
        self.gpu_lock
    }

    /// The mold client.
    pub closed spec fn mold_client(&self) -> MoldClient {
        self.mold
    }

    /// Where generated files go.
    pub closed spec fn asset_dir(&self) -> PathBuf {
        self.output_dir
    }

    /// The connect timeout of the HTTP client, in seconds.
    pub closed spec fn connect_timeout(&self) -> u64 {
        self.connect_timeout_secs
    }

    /// The read timeout of the HTTP client, in seconds.
    pub closed spec fn read_timeout(&self) -> u64 {
        self.read_timeout_secs
    }

    /// `p` is the provider for `config` over an HTTP client with the given
    /// timeouts: trailing slashes trimmed from both base addresses, so that
    /// joined request paths never hold `//`.
    pub open spec fn is_provider_for(
        p: MoldProvider,
        config: MoldConfig,
        connect_timeout_secs: u64,
        read_timeout_secs: u64,
    ) -> bool {
        &&& p.lock_client().base_url() == trim_trailing(config.broker_url@, '/')
        &&& p.mold_client().base_url() == trim_trailing(config.mold_url@, '/')
        &&& p.mold_client().key() == config.api_key
        &&& p.asset_dir() == config.output_dir
        &&& p.connect_timeout() == connect_timeout_secs
        &&& p.read_timeout() == read_timeout_secs
    }

    /// The provider for `config` over an already built HTTP client, which
    /// both the broker client and the mold client send their requests with.
    pub fn from_client(http: TimedHttpClient, config: MoldConfig) -> (p: Self)
        ensures
            Self::is_provider_for(
                p,
                config,
                http.connect_timeout_secs,
                http.read_timeout_secs,
            ),
            p.mold_client().client() == http.client,
    {
        let mold_url = trim_trailing_slashes(config.mold_url.as_str());
        let broker_url = trim_trailing_slashes(config.broker_url.as_str());
        MoldProvider {
            gpu_lock: GpuLockClient::new(http.client.clone(), broker_url),
            mold: MoldClient::new(http.client, mold_url, config.api_key),
            output_dir: config.output_dir,
            connect_timeout_secs: http.connect_timeout_secs,
            read_timeout_secs: http.read_timeout_secs,
        }
    }

    /// A provider for `config`, over an HTTP client built to allow 5 s to
    /// connect and 300 s between reads; when that client cannot be built,
    /// the backend is unreachable.
    pub fn new(config: MoldConfig) -> (r: Result<Self, VisionError>)
        ensures
            match r {
                Ok(p) => Self::is_provider_for(
                    p,
                    config,
                    CONNECT_TIMEOUT_SECS,
                    MOLD_READ_TIMEOUT_SECS,
                ),
                Err(e) => e matches VisionError::BackendUnreachable(m) && starts_with(
                    m@,
                    "failed to build HTTP client: "@,
                ),
            },
    {
        match build_http_client(CONNECT_TIMEOUT_SECS, MOLD_READ_TIMEOUT_SECS) {
            Ok(http) => Ok(Self::from_client(http, config)),
            Err(e) => {
                let mut m = String::from_str("failed to build HTTP client: ");
                let ghost prefix = m@;
                m.append(e.as_str());
                assert(m@.subrange(0, prefix.len() as int) =~= prefix);
                Err(VisionError::BackendUnreachable(m))
            },
        }
    }

    /// The connect timeout of the HTTP client, in seconds.
    pub fn connect_timeout_secs(&self) -> (r: u64)
        ensures
            r == self.connect_timeout(),
    {
        self.connect_timeout_secs
    }

    /// The read timeout of the HTTP client, in seconds.
    pub fn read_timeout_secs(&self) -> (r: u64)
        ensures
            r == self.read_timeout(),
    {
        self.read_timeout_secs
    }

    /// The broker client.
    pub fn gpu_lock(&self) -> (r: &GpuLockClient)
        ensures
            *r == self.lock_client(),
    {
        &self.gpu_lock
    }

    /// The mold client.
    pub fn mold(&self) -> (r: &MoldClient)
        ensures
            *r == self.mold_client(),
    {
        &self.mold
    }

    /// Where generated files go.
    pub fn output_dir(&self) -> (r: &PathBuf)
        ensures
            *r == self.asset_dir(),
    {
        &self.output_dir
    }

    /// 3D generation is not offered by this backend: mold's mesh API is an
    /// asynchronous job lifecycle, not a single call. Always `Unsupported`,
    /// without any request being made.
    pub fn generate_3d(&self, req: ThreeDRequest) -> (r: Result<GeneratedAsset, VisionError>)
        ensures
            r matches Err(VisionError::Unsupported(what)) && what@
                == "3D generation via mold (Pass B is not yet implemented)"@,
    {
        Err(VisionError::Unsupported("3D generation via mold (Pass B is not yet implemented)"))
    }
}

/// The file extension for a content type mold reports.
pub open spec fn extension_of(content_type: Seq<char>) -> Seq<char> {
    if content_type == "image/png"@ {
        "png"@
    } else if content_type == "image/jpeg"@ {
        "jpg"@
    } else if content_type == "image/webp"@ {
        "webp"@
    } else {
        "bin"@
    }
}

/// The file extension for a generated file of `content_type`: `png`, `jpg`
/// or `webp` for those image types, and `bin` for anything else.
pub fn extension_for_content_type(content_type: &str) -> (r: &'static str)
    ensures
        r@ == extension_of(content_type@),
{
    if str_equal(content_type, "image/png") {
        "png"
    } else if str_equal(content_type, "image/jpeg") {
        "jpg"
    } else if str_equal(content_type, "image/webp") {
        "webp"
    } else {
        "bin"
    }
}

/// `v` is how a failed lock acquisition is reported: a queue timeout is a
/// GPU-lock timeout; any other failure is the broker being unreachable.
pub open spec fn maps_gpu_lock_error(e: GpuLockClientError, v: VisionError) -> bool {
    match e {
        GpuLockClientError::Timeout => v is GpuLockTimeout,
        GpuLockClientError::Transport(m) => v matches VisionError::BackendUnreachable(x) && x@
            == "aivyx-broker: "@ + m@,
        GpuLockClientError::ReleaseRejected(m) => v matches VisionError::BackendUnreachable(x)
            && x@ == "aivyx-broker: "@ + m@,
    }
}

/// Reports a failed lock acquisition as a `VisionError`.
pub fn map_gpu_lock_error(e: GpuLockClientError) -> (r: VisionError)
    ensures
        maps_gpu_lock_error(e, r),
{
    match e {
        GpuLockClientError::Timeout => VisionError::GpuLockTimeout,
        GpuLockClientError::Transport(msg) => {
            let mut m = String::from_str("aivyx-broker: ");
            m.append(msg.as_str());
            VisionError::BackendUnreachable(m)
        },
        GpuLockClientError::ReleaseRejected(msg) => {
            let mut m = String::from_str("aivyx-broker: ");
            m.append(msg.as_str());
            VisionError::BackendUnreachable(m)
        },
    }
}

/// `v` is how a mold failure is reported: unreachable stays unreachable, a
/// timeout is a generation timeout, and the named rejections become backend
/// errors with mold's own status and code.
pub open spec fn maps_mold_error(e: MoldClientError, v: VisionError) -> bool {
    match e {
        MoldClientError::Transport(m) => v matches VisionError::BackendUnreachable(x) && x@
            == "mold serve: "@ + m@,
        MoldClientError::Timeout => v is GenerationTimeout,
        MoldClientError::ModelNotFound(m) => v matches VisionError::BackendError {
            status,
            code: Some(c),
            message,
        } && status == 404 && c@ == "MODEL_NOT_FOUND"@ && message == m,
        MoldClientError::QueueFull => v matches VisionError::BackendError {
            status,
            code: Some(c),
            message,
        } && status == 503 && c@ == "QUEUE_FULL"@ && message@
            == "mold serve's own generation queue is full"@,
        MoldClientError::BackendError { status, code, message } => v
            == VisionError::BackendError { status, code, message },
    }
}

/// Reports a mold failure as a `VisionError`.
pub fn map_mold_error(e: MoldClientError) -> (r: VisionError)
    ensures
        maps_mold_error(e, r),
{
    match e {
        MoldClientError::Transport(msg) => {
            let mut m = String::from_str("mold serve: ");
            m.append(msg.as_str());
            VisionError::BackendUnreachable(m)
        },
        MoldClientError::Timeout => VisionError::GenerationTimeout,
        MoldClientError::ModelNotFound(msg) => VisionError::BackendError {
            status: 404,
            code: Some(String::from_str("MODEL_NOT_FOUND")),
            message: msg,
        },
        MoldClientError::QueueFull => VisionError::BackendError {
            status: 503,
            code: Some(String::from_str("QUEUE_FULL")),
            message: String::from_str("mold serve's own generation queue is full"),
        },
        MoldClientError::BackendError { status, code, message } => VisionError::BackendError {
            status,
            code,
            message,
        },
    }
}


/// The character of the standard base64 alphabet (RFC 4648 §4) for the
/// 6-bit value `v`.
pub open spec fn base64_symbol(v: int) -> char {
    if v < 26 {
        ('A' as int + v) as char
    } else if v < 52 {
        ('a' as int + v - 26) as char
    } else if v < 62 {
        ('0' as int + v - 52) as char
    } else if v == 62 {
        '+'
    } else {
        '/'
    }
}

/// The standard, padded base64 encoding of `bytes` (RFC 4648 §4): each
/// group of three bytes becomes four characters; a final group of one or
/// two bytes is padded with `=` to four characters.
pub open spec fn base64_standard(bytes: Seq<u8>) -> Seq<char>
    decreases bytes.len(),
{
    if bytes.len() == 0 {
        seq![]
    } else if bytes.len() == 1 {
        let n = bytes[0] as int;
        seq![base64_symbol(n / 4), base64_symbol((n % 4) * 16), '=', '=']
    } else if bytes.len() == 2 {
        let n = bytes[0] as int * 256 + bytes[1] as int;
        seq![base64_symbol(n / 1024), base64_symbol((n / 16) % 64), base64_symbol((n % 16) * 4), '=']
    } else {
        let n = bytes[0] as int * 65536 + bytes[1] as int * 256 + bytes[2] as int;
        seq![
            base64_symbol(n / 262144),
            base64_symbol((n / 4096) % 64),
            base64_symbol((n / 64) % 64),
            base64_symbol(n % 64),
        ] + base64_standard(bytes.subrange(3, bytes.len() as int))
    }
}

/// Law: base64 text is four characters for every started group of three
/// bytes, and only its padding is `=`: none when the length is a multiple
/// of three, two after a final single byte, one after a final pair.
pub proof fn lemma_base64_length(bytes: Seq<u8>)
    ensures
        base64_standard(bytes).len() == 4 * ((bytes.len() + 2) / 3),
        forall|i: int|
            0 <= i < base64_standard(bytes).len() && #[trigger] base64_standard(bytes)[i] == '='
                ==> (bytes.len() % 3 != 0 && i >= base64_standard(bytes).len() - (3
                - bytes.len() % 3)),
        bytes.len() % 3 == 1 ==> base64_standard(bytes).last() == '=' && base64_standard(
            bytes,
        )[base64_standard(bytes).len() - 2] == '=',
        bytes.len() % 3 == 2 ==> base64_standard(bytes).last() == '=',
    decreases bytes.len(),
{
    let t = base64_standard(bytes);
    if bytes.len() >= 3 {
        let rest = bytes.subrange(3, bytes.len() as int);
        lemma_base64_length(rest);
        let n = bytes[0] as int * 65536 + bytes[1] as int * 256 + bytes[2] as int;
        let head = seq![
            base64_symbol(n / 262144),
            base64_symbol((n / 4096) % 64),
            base64_symbol((n / 64) % 64),
            base64_symbol(n % 64),
        ];
        let r = base64_standard(rest);
        assert(t == head + r);
        assert(rest.len() == bytes.len() - 3);
        assert(rest.len() % 3 == bytes.len() % 3);
        assert(0 <= n < 16777216) by (nonlinear_arith)
            requires
                n == bytes[0] as int * 65536 + bytes[1] as int * 256 + bytes[2] as int,
                0 <= bytes[0] < 256,
                0 <= bytes[1] < 256,
                0 <= bytes[2] < 256,
        ;
        lemma_base64_symbol_is_not_padding(n / 262144);
        lemma_base64_symbol_is_not_padding((n / 4096) % 64);
        lemma_base64_symbol_is_not_padding((n / 64) % 64);
        lemma_base64_symbol_is_not_padding(n % 64);
        assert forall|i: int| 0 <= i < t.len() && #[trigger] t[i] == '=' implies (bytes.len() % 3
            != 0 && i >= t.len() - (3 - bytes.len() % 3)) by {
            if i < 4 {
                assert(t[i] == head[i]);
            } else {
                assert(t[i] == r[i - 4]);
            }
        }
        if bytes.len() % 3 != 0 {
            assert(t.last() == r.last());
            assert(t[t.len() - 2] == r[r.len() - 2]);
        }
    } else if bytes.len() == 2 {
        let n = bytes[0] as int * 256 + bytes[1] as int;
        lemma_base64_symbol_is_not_padding(n / 1024);
        lemma_base64_symbol_is_not_padding((n / 16) % 64);
        lemma_base64_symbol_is_not_padding((n % 16) * 4);
    } else if bytes.len() == 1 {
        let n = bytes[0] as int;
        lemma_base64_symbol_is_not_padding(n / 4);
        lemma_base64_symbol_is_not_padding((n % 4) * 16);
    }
}

/// No symbol of the alphabet is the padding character.
proof fn lemma_base64_symbol_is_not_padding(v: int)
    requires
        0 <= v < 64,
    ensures
        base64_symbol(v) != '=',
{
}

/// Encodes with `base64::engine::general_purpose::STANDARD` (`Engine::encode`).
/// Claimed, as the crate documents for that engine: the text is the
/// standard, padded base64 encoding of the bytes (`base64_standard`).
#[verifier::external_body]
fn base64_encode(bytes: &[u8]) -> (r: String)
    ensures
        r@ == base64_standard(bytes@),
{
    base64::Engine::encode(&base64::engine::general_purpose::STANDARD, bytes)
}

/// The prompt sent to mold: the request's prompt, with its style hint (if
/// any) appended after a comma, since mold has no separate style parameter.
pub open spec fn mold_prompt_text(req: ImageRequest) -> Seq<char> {
    match req.style_hint {
        Some(hint) => req.prompt@ + ", "@ + hint@,
        None => req.prompt@,
    }
}

/// `m` is the mold request for `req`, with `source` the bytes of its
/// reference image, if it has one: the prompt with the style hint folded in,
/// the size and seed passed through, the image base64-encoded, and every
/// other mold knob left unset.
pub open spec fn is_mold_request_for(m: GenerateImageRequest, req: ImageRequest, source: Option<
    Seq<u8>,
>) -> bool {
    &&& m.prompt@ == mold_prompt_text(req)
    &&& m.width == req.width
    &&& m.height == req.height
    &&& m.seed == req.seed
    &&& match source {
        Some(b) => m.source_image matches Some(s) && s@ == base64_standard(b),
        None => m.source_image is None,
    }
    &&& m.model is None
    &&& m.steps is None
    &&& m.negative_prompt is None
    &&& m.output_format is None
}

/// The mold request for `req`, with `source` the bytes of its reference
/// image, if it has one.
pub fn mold_request(req: &ImageRequest, source: Option<&[u8]>) -> (m: GenerateImageRequest)
    ensures
        is_mold_request_for(
            m,
            *req,
            match source {
                Some(b) => Some(b@),
                None => None,
            },
        ),
{
    let source_image = match source {
        Some(bytes) => Some(base64_encode(bytes)),
        None => None,
    };
    let prompt = match &req.style_hint {
        Some(hint) => {
            let mut p = req.prompt.clone();
            p.append(", ");
            p.append(hint.as_str());
            p
        },
        None => req.prompt.clone(),
    };
    GenerateImageRequest {
        prompt,
        model: None,
        width: req.width,
        height: req.height,
        steps: None,
        seed: req.seed,
        negative_prompt: None,
        source_image,
        output_format: None,
    }
}

/// Translates a backend-agnostic request into mold's request. `reference`
/// is the outcome of reading the request's reference image: `None` when it
/// has none, the file's bytes, or the text of the read error (which fails
/// the request as a local I/O error).
pub fn build_mold_request(req: &ImageRequest, reference: Option<Result<Vec<u8>, String>>) -> (r:
    Result<GenerateImageRequest, VisionError>)
    ensures
        match reference {
            Some(Err(msg)) => r == Err::<GenerateImageRequest, VisionError>(VisionError::Io(msg)),
            Some(Ok(bytes)) => r matches Ok(m) && is_mold_request_for(m, *req, Some(bytes@)),
            None => r matches Ok(m) && is_mold_request_for(m, *req, None),
        },
{
    match reference {
        Some(Err(msg)) => Err(VisionError::Io(msg)),
        Some(Ok(bytes)) => Ok(mold_request(req, Some(bytes.as_slice()))),
        None => Ok(mold_request(req, None)),
    }
}


/// Law: the prompt sent to mold depends on the request's prompt and style
/// hint alone: two requests that agree on those get the same mold prompt,
/// whatever their reference images, sizes or seeds.
pub proof fn lemma_mold_prompt_depends_on_prompt_and_hint_only(r1: ImageRequest, r2: ImageRequest)
    requires
        r1.prompt@ == r2.prompt@,
        r1.style_hint == r2.style_hint,
    ensures
        mold_prompt_text(r1) == mold_prompt_text(r2),
{
}

/// Law: a mold request made for `req` asks for exactly the image `req`
/// describes: its own width as width and its own height as height, its own
/// seed, its prompt followed by `", "` and the style hint whenever it has
/// one (with or without a reference image), the reference image's bytes in
/// standard base64 exactly when there is one, and no other mold knob.
pub proof fn lemma_mold_request_asks_for_the_request(
    m: GenerateImageRequest,
    req: ImageRequest,
    source: Option<Seq<u8>>,
)
    requires
        is_mold_request_for(m, req, source),
    ensures
        m.width == req.width,
        m.height == req.height,
        m.seed == req.seed,
        req.style_hint matches Some(h) ==> m.prompt@ == req.prompt@ + ", "@ + h@,
        req.style_hint is None ==> m.prompt@ == req.prompt@,
        (source is None) <==> (m.source_image is None),
        source matches Some(b) ==> (m.source_image matches Some(s) && s@ == base64_standard(b)),
        m.model is None,
        m.steps is None,
        m.negative_prompt is None,
        m.output_format is None,
{
}

/// Law: mold's own answers reach the caller intact. A generic rejection
/// keeps mold's status, machine-readable code and message; a missing model
/// is a 404 with code `MODEL_NOT_FOUND` and mold's message; a full queue is a
/// 503 with code `QUEUE_FULL`; only mold's timeout is a generation timeout;
/// an unreachable mold is an unreachable backend, with mold's message.
pub proof fn lemma_mold_errors_keep_what_mold_said(e: MoldClientError, v: VisionError)
    requires
        maps_mold_error(e, v),
    ensures
        e matches MoldClientError::BackendError { status, code, message } ==> v == (
        VisionError::BackendError { status, code, message }),
        e matches MoldClientError::ModelNotFound(m) ==> (v matches VisionError::BackendError {
            status: s,
            code: Some(c),
            message: x,
        } && s == 404 && c@ == "MODEL_NOT_FOUND"@ && x == m),
        e is QueueFull ==> (v matches VisionError::BackendError { status: s, code: Some(c), .. }
            && s == 503 && c@ == "QUEUE_FULL"@),
        (e is Timeout) <==> (v is GenerationTimeout),
        e matches MoldClientError::Transport(m) ==> (v matches VisionError::BackendUnreachable(x)
            && x@ == "mold serve: "@ + m@),
{
}

/// Law: only the broker's queue timeout is reported as a GPU-lock timeout;
/// every other lock failure is the broker being unreachable, with the
/// broker client's message.
pub proof fn lemma_lock_errors_keep_what_the_broker_said(e: GpuLockClientError, v: VisionError)
    requires
        maps_gpu_lock_error(e, v),
    ensures
        (e is Timeout) <==> (v is GpuLockTimeout),
        e matches GpuLockClientError::Transport(m) ==> (v matches VisionError::BackendUnreachable(
            x,
        ) && x@ == "aivyx-broker: "@ + m@),
        e matches GpuLockClientError::ReleaseRejected(m) ==> (
        v matches VisionError::BackendUnreachable(x) && x@ == "aivyx-broker: "@ + m@),
{
}

/// Law: the three image types mold names get their usual extensions, and
/// every other content type gets `bin`.
pub proof fn lemma_extensions(content_type: Seq<char>)
    ensures
        content_type == "image/png"@ ==> extension_of(content_type) == "png"@,
        content_type == "image/jpeg"@ && content_type != "image/png"@ ==> extension_of(
            content_type,
        ) == "jpg"@,
        content_type == "image/webp"@ && content_type != "image/png"@ && content_type
            != "image/jpeg"@ ==> extension_of(content_type) == "webp"@,
        content_type != "image/png"@ && content_type != "image/jpeg"@ && content_type
            != "image/webp"@ ==> extension_of(content_type) == "bin"@,
{
}

} // verus!
