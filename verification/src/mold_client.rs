//! The client side of `mold serve`'s synchronous `POST /api/generate`: the
//! request and response shapes, and what each answer means. JSON in; raw
//! image bytes with `Content-Type` and `x-mold-seed-used` headers out on
//! success; a JSON `{"error", "code"}` body on failure.

use vstd::prelude::*;
use vstd::string::StringExecFns;

use crate::text::{
    debug_quoted, debug_text, decimal_digits, decimal_text, parse_u64, parsed_u64, str_equal,
};

verus! {

/// The body of a generation request. Fields left `None` are omitted from the
/// JSON sent. (mold's optional `guidance` knob is never set by this library,
/// so it is not part of this shape.)
#[derive(Debug, Clone)]
pub struct GenerateImageRequest {
    pub prompt: String,
    pub model: Option<String>,
    pub width: Option<u32>,
    pub height: Option<u32>,
    pub steps: Option<u32>,
    pub seed: Option<u64>,
    pub negative_prompt: Option<String>,
    /// Base64-encoded source image, for image-to-image generation.
    pub source_image: Option<String>,
    pub output_format: Option<String>,
}

impl Default for GenerateImageRequest {
    /// An empty prompt with every optional field unset.
    fn default() -> (r: Self)
        ensures
            r.prompt@ == Seq::<char>::empty(),
            r.model is None,
            r.width is None,
            r.height is None,
            r.steps is None,
            r.seed is None,
            r.negative_prompt is None,
            r.source_image is None,
            r.output_format is None,
    {
        GenerateImageRequest {
            prompt: String::new(),
            model: None,
            width: None,
            height: None,
            steps: None,
            seed: None,
            negative_prompt: None,
            source_image: None,
            output_format: None,
        }
    }
}

/// A successful generation: the image bytes, their content type, and the
/// seed mold reports having used.
#[derive(Debug, Clone)]
pub struct GenerateImageResponse {
    pub bytes: Vec<u8>,
    pub content_type: String,
    pub seed_used: Option<u64>,
}

/// What can go wrong calling `mold serve`.
#[derive(Debug)]
pub enum MoldClientError {
    /// mold could not be reached.
    Transport(String),
    /// mold was reached but generation did not finish in time.
    Timeout,
    ModelNotFound(String),
    /// mold's own generation queue is full.
    QueueFull,
    BackendError { status: u16, code: Option<String>, message: String },
}

/// The human-readable message of each error.
pub open spec fn mold_error_text(e: MoldClientError) -> Seq<char> {
    match e {
        MoldClientError::Transport(m) => "could not reach mold serve: "@ + m@,
        MoldClientError::Timeout => "generation timed out"@,
        MoldClientError::ModelNotFound(m) => "model not found: "@ + m@,
        MoldClientError::QueueFull => "mold serve's own generation queue is full"@,
        MoldClientError::BackendError { status, code, message } =>
            "mold serve rejected the request (status "@ + decimal_digits(status as nat)
            + ", code "@ + match code {
                None => "None"@,
                Some(c) => "Some("@ + debug_quoted(c@) + ")"@,
            } + "): "@ + message@,
    }
}

impl MoldClientError {
    /// The error's message.
    pub fn message(&self) -> (r: String)
        ensures
            r@ == mold_error_text(*self),
    {
        match self {
            MoldClientError::Transport(m) => {
                let mut r = String::from_str("could not reach mold serve: ");
                r.append(m.as_str());
                r
            },
            MoldClientError::Timeout => String::from_str("generation timed out"),
            MoldClientError::ModelNotFound(m) => {
                let mut r = String::from_str("model not found: ");
                r.append(m.as_str());
                r
            },
            MoldClientError::QueueFull => String::from_str(
                "mold serve's own generation queue is full",
            ),
            MoldClientError::BackendError { status, code, message } => {
                let mut r = String::from_str("mold serve rejected the request (status ");
                let digits = decimal_text(*status as u64);
                r.append(digits.as_str());
                r.append(", code ");
                match code {
                    None => r.append("None"),
                    Some(c) => {
                        r.append("Some(");
                        let quoted = debug_text(c.as_str());
                        r.append(quoted.as_str());
                        r.append(")");
                    },
                }
                r.append("): ");
                r.append(message.as_str());
                r
            },
        }
    }
}

/// The `mold serve` endpoint, its API key, and the HTTP client that reaches
/// it.
#[derive(Clone)]
pub struct MoldClient {
    http: reqwest::Client,
    base_url: String,
    api_key: Option<String>,
}

impl MoldClient {
    /// mold's base address.
    pub closed spec fn base_url(&self) -> Seq<char> {
        self.base_url@
    }

    /// The API key sent with every request, if any.
    pub closed spec fn key(&self) -> Option<String> {
        self.api_key
    }

    /// The HTTP client handle requests go through.
    pub closed spec fn client(&self) -> reqwest::Client {
        self.http
    }

    pub fn new(http: reqwest::Client, base_url: String, api_key: Option<String>) -> (c: Self)
        ensures
            c.base_url() == base_url@,
            c.client() == http,
            c.key() == api_key,
    {
        MoldClient { http, base_url, api_key }
    }

    /// The HTTP client the requests are sent with.
    pub fn http(&self) -> (r: &reqwest::Client)
        ensures
            *r == self.client(),
    {
        &self.http
    }

    /// `<mold>/api/generate`.
    pub fn generate_url(&self) -> (r: String)
        ensures
            r@ == self.base_url() + "/api/generate"@,
    {
        let mut r = self.base_url.clone();
        r.append("/api/generate");
        r
    }

    /// The value of the `X-Api-Key` header to send, if a key is configured.
    pub fn api_key(&self) -> (r: Option<&str>)
        ensures
            match (r, self.key()) {
                (Some(k), Some(key)) => k@ == key@,
                (None, None) => true,
                _ => false,
            },
    {
        match &self.api_key {
            Some(k) => Some(k.as_str()),
            None => None,
        }
    }
}

/// Classifies a failed exchange with mold. A connect timeout means mold is
/// not reachable at all (`Transport`); a timeout once connected means mold
/// is there but generation did not finish in time (`Timeout`).
pub fn classify_transport_error(is_timeout: bool, is_connect: bool, message: String) -> (r:
    MoldClientError)
    ensures
        is_timeout && !is_connect ==> r is Timeout,
        !(is_timeout && !is_connect) ==> r == MoldClientError::Transport(message),
{
    if is_timeout && !is_connect {
        MoldClientError::Timeout
    } else {
        MoldClientError::Transport(message)
    }
}

/// The content type mold reported, or `application/octet-stream` when the
/// header is absent or unreadable.
pub open spec fn reported_content_type(header: Option<Seq<char>>) -> Seq<char> {
    match header {
        Some(ct) => ct,
        None => "application/octet-stream"@,
    }
}

/// Assembles a successful answer from its `Content-Type` and
/// `x-mold-seed-used` header values (each `None` when absent or not visible
/// ASCII) and its body bytes. A seed header that is not a `u64` numeral is
/// ignored.
pub fn success_response(content_type: Option<&str>, seed_used: Option<&str>, bytes: Vec<u8>) -> (r:
    GenerateImageResponse)
    ensures
        r.bytes@ == bytes@,
        r.content_type@ == reported_content_type(
            match content_type {
                Some(ct) => Some(ct@),
                None => None,
            },
        ),
        r.seed_used == match seed_used {
            Some(s) => parsed_u64(s@),
            None => None,
        },
{
    let content_type = match content_type {
        Some(ct) => String::from_str(ct),
        None => String::from_str("application/octet-stream"),
    };
    let seed_used = match seed_used {
        Some(s) => parse_u64(s),
        None => None,
    };
    GenerateImageResponse { bytes, content_type, seed_used }
}

/// The JSON body mold sends with a failure.
#[derive(Debug, Clone)]
pub struct MoldErrorBody {
    pub error: String,
    pub code: Option<String>,
}

/// An optional error code that is present and reads exactly `expected`.
pub open spec fn has_code(code: Option<String>, expected: Seq<char>) -> bool {
    code matches Some(c) && c@ == expected
}

/// Whether an optional string holds exactly `expected`.
fn code_is(code: &Option<String>, expected: &str) -> (r: bool)
    ensures
        r == has_code(*code, expected@),
{
    match code {
        Some(c) => str_equal(c.as_str(), expected),
        None => false,
    }
}

/// `r` is what a non-success answer with `status` and `body` means (see
/// `error_response`).
pub open spec fn is_mold_error_for(status: u16, body: Option<MoldErrorBody>, r: MoldClientError) -> bool {
    let (error, code) = match body {
        Some(b) => (b.error@, b.code),
        None => ("(no error body)"@, None),
    };
    if status == 404 && has_code(code, "MODEL_NOT_FOUND"@) {
        r matches MoldClientError::ModelNotFound(m) && m@ == error
    } else if status == 503 && has_code(code, "QUEUE_FULL"@) {
        r is QueueFull
    } else {
        r matches MoldClientError::BackendError { status: s, code: c, message: m } && s == status
            && c == code && m@ == error
    }
}

/// Law: mold's failure answers are named only on mold's own word. A missing
/// model needs status 404 and a body whose code is exactly
/// `MODEL_NOT_FOUND`; a full queue needs status 503 and a body whose code is
/// exactly `QUEUE_FULL`; and both are then what the answer means. An answer
/// without a code, or without a readable body, is always a generic backend
/// error with its own status, and without a body its message is
/// `(no error body)`.
pub proof fn lemma_mold_errors_are_named_on_molds_word(
    status: u16,
    body: Option<MoldErrorBody>,
    r: MoldClientError,
)
    requires
        is_mold_error_for(status, body, r),
    ensures
        body is None ==> r is BackendError && r->BackendError_status == status
            && r->BackendError_code is None && r->BackendError_message@ == "(no error body)"@,
        body is Some && body->0.code is None ==> r is BackendError && r->BackendError_status
            == status && r->BackendError_code is None && r->BackendError_message@
            == body->0.error@,
        (r is ModelNotFound) == (status == 404 && body is Some && body->0.code is Some
            && body->0.code->0@ == "MODEL_NOT_FOUND"@),
        (r is QueueFull) == (status == 503 && body is Some && body->0.code is Some
            && body->0.code->0@ == "QUEUE_FULL"@),
        r is ModelNotFound ==> r->ModelNotFound_0@ == body->0.error@,
        r is BackendError && body is Some ==> r->BackendError_status == status
            && r->BackendError_code == body->0.code && r->BackendError_message@ == body->0.error@,
{
}

/// What a non-success answer means, given its status and its JSON body
/// (`None` when the body could not be read as `{"error", "code"}`, which
/// counts as the error text `(no error body)` without a code): 404 with code
/// `MODEL_NOT_FOUND` is a missing model, 503 with code `QUEUE_FULL` is a full
/// queue, and anything else is passed on as a generic backend error.
pub fn error_response(status: u16, body: Option<MoldErrorBody>) -> (r: MoldClientError)
    ensures
        is_mold_error_for(status, body, r),
{
    let body = match body {
        Some(b) => b,
        None => MoldErrorBody { error: String::from_str("(no error body)"), code: None },
    };
    if status == 404 && code_is(&body.code, "MODEL_NOT_FOUND") {
        MoldClientError::ModelNotFound(body.error)
    } else if status == 503 && code_is(&body.code, "QUEUE_FULL") {
        MoldClientError::QueueFull
    } else {
        MoldClientError::BackendError { status, code: body.code, message: body.error }
    }
}

} // verus!
