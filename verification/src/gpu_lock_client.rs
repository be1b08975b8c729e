//! The client side of aivyx-broker's GPU lock (`POST /gpu-lock/acquire`,
//! `POST /gpu-lock/release`): endpoint addresses and what each broker
//! answer means. The HTTP exchange itself is carried out by the caller.

use vstd::prelude::*;
use vstd::string::StringExecFns;

use crate::text::{decimal_digits, digit_char, lemma_digit_char};

verus! {

/// An opaque handle to a held GPU lock, exactly as the broker issued it.
/// It is only ever handed back to the broker, never parsed.
#[derive(Debug, Clone, PartialEq, Eq)]
pub struct LeaseId(pub(crate) String);

impl View for LeaseId {
    type V = Seq<char>;

    /// The lease's text, as the broker issued it.
    closed spec fn view(&self) -> Seq<char> {
        self.0@
    }
}

impl LeaseId {
    /// The lease's text, as the broker issued it (what `Display` shows).
    pub fn to_string(&self) -> (r: String)
        ensures
            r@ == self@,
    {
        self.0.clone()
    }

    /// The lease's text, borrowed.
    pub fn as_str(&self) -> (r: &str)
        ensures
            r@ == self@,
    {
        self.0.as_str()
    }
}

/// What can go wrong talking to the broker's GPU lock.
#[derive(Debug)]
pub enum GpuLockClientError {
    /// The request failed, or the broker answered something unexpected.
    Transport(String),
    /// The broker's queue timed out (it answered 503).
    Timeout,
    /// The broker refused the release.
    ReleaseRejected(String),
}

/// The human-readable message of each error.
pub open spec fn gpu_lock_error_text(e: GpuLockClientError) -> Seq<char> {
    match e {
        GpuLockClientError::Transport(m) => "gpu-lock request to the broker failed: "@ + m@,
        GpuLockClientError::Timeout => "timed out waiting for the GPU lock (broker returned 503)"@,
        GpuLockClientError::ReleaseRejected(m) => "broker rejected the release: "@ + m@,
    }
}

impl GpuLockClientError {
    /// The error's message.
    pub fn message(&self) -> (r: String)
        ensures
            r@ == gpu_lock_error_text(*self),
    {
        match self {
            GpuLockClientError::Transport(m) => {
                let mut r = String::from_str("gpu-lock request to the broker failed: ");
                r.append(m.as_str());
                r
            },
            GpuLockClientError::Timeout => String::from_str(
                "timed out waiting for the GPU lock (broker returned 503)",
            ),
            GpuLockClientError::ReleaseRejected(m) => {
                let mut r = String::from_str("broker rejected the release: ");
                r.append(m.as_str());
                r
            },
        }
    }
}

/// The broker's GPU-lock endpoints, and the HTTP client that reaches them.
#[derive(Clone)]
pub struct GpuLockClient {
    http: reqwest::Client,
    broker_url: String,
}

impl GpuLockClient {
    /// The broker's base address.
    pub closed spec fn base_url(&self) -> Seq<char> {
        self.broker_url@
    }

    /// The HTTP client handle requests go through.
    pub closed spec fn client(&self) -> reqwest::Client {
        self.http
    }

    pub fn new(http: reqwest::Client, broker_url: String) -> (c: Self)
        ensures
            c.base_url() == broker_url@,
            c.client() == http,
    {
        GpuLockClient { http, broker_url }
    }

    /// The HTTP client the requests are sent with.
    pub fn http(&self) -> (r: &reqwest::Client)
        ensures
            *r == self.client(),
    {
        &self.http
    }

    /// `<broker>/gpu-lock/acquire`.
    pub fn acquire_url(&self) -> (r: String)
        ensures
            r@ == self.base_url() + "/gpu-lock/acquire"@,
    {
        let mut r = self.broker_url.clone();
        r.append("/gpu-lock/acquire");
        r
    }

    /// `<broker>/gpu-lock/release`.
    pub fn release_url(&self) -> (r: String)
        ensures
            r@ == self.base_url() + "/gpu-lock/release"@,
    {
        let mut r = self.broker_url.clone();
        r.append("/gpu-lock/release");
        r
    }
}

/// An HTTP status in the 2xx range.
pub open spec fn is_success(status: u16) -> bool {
    200 <= status <= 299
}

/// Whether an HTTP status is a success (2xx).
pub fn is_success_status(status: u16) -> (r: bool)
    ensures
        r == is_success(status),
{
    200 <= status && status <= 299
}

/// The reason phrase that `http::StatusCode`'s `Display` writes after the
/// numeric code: the canonical reason, or `<unknown status code>`.
pub uninterp spec fn status_reason_text(status: u16) -> Seq<char>;

/// How an HTTP status is written: its decimal code, a space, its reason.
pub open spec fn status_display(status: u16) -> Seq<char> {
    decimal_digits(status as nat) + " "@ + status_reason_text(status)
}

/// Law: how an HTTP status is written begins with its three decimal digits
/// and a space (`503 Service Unavailable`), for every status `100..=999`.
pub proof fn lemma_status_display_begins_with_code(status: u16)
    requires
        100 <= status <= 999,
    ensures
        status_display(status).len() >= 4,
        status_display(status)[0] as int == '0' as int + status / 100,
        status_display(status)[1] as int == '0' as int + (status / 10) % 10,
        status_display(status)[2] as int == '0' as int + status % 10,
        status_display(status)[3] == ' ',
{
    let n = status as nat;
    assert(n / 10 >= 10);
    assert((n / 10) / 10 == n / 100);
    assert(n / 100 < 10);
    let d = decimal_digits(n);
    assert(decimal_digits(n / 10) == decimal_digits(n / 100).push(digit_char(((n / 10) % 10) as int)));
    assert(d == decimal_digits(n / 10).push(digit_char((n % 10) as int)));
    assert(d.len() == 3);
    assert(d =~= seq![digit_char((n / 100) as int), digit_char(((n / 10) % 10) as int), digit_char((n % 10) as int)]);
    lemma_digit_char((n / 100) as int);
    lemma_digit_char(((n / 10) % 10) as int);
    lemma_digit_char((n % 10) as int);
    let t = status_display(status);
    assert(t == d + " "@ + status_reason_text(status));
    assert(" "@[0] == ' ') by {
        reveal_strlit(" ");
    }
    assert(" "@.len() == 1) by {
        reveal_strlit(" ");
    }
}

/// Writes a status with `reqwest::StatusCode`'s `Display`
/// (`StatusCode::from_u16`, then `to_string`). Claimed, as http's source
/// shows: the text is the decimal code, a space, then a reason phrase that
/// depends on the code alone; `from_u16` accepts every code in `100..=999`.
#[verifier::external_body]
fn http_status_text(status: u16) -> (r: String)
    requires
        100 <= status <= 999,
    ensures
        r@ == decimal_digits(status as nat) + " "@ + status_reason_text(status),
{
    reqwest::StatusCode::from_u16(status).unwrap().to_string()
}

/// What the broker's answer status to an acquire means, before its body is
/// read: 503 is the lock queue's timeout, any other non-success status is an
/// unexpected answer, reported with the status as HTTP writes it (e.g.
/// `500 Internal Server Error`), and a success means the body holds the
/// lease. Statuses are HTTP's, `100..=999`.
pub fn acquire_status_outcome(status: u16) -> (r: Result<(), GpuLockClientError>)
    requires
        100 <= status <= 999,
    ensures
        status == 503 ==> r matches Err(GpuLockClientError::Timeout),
        status != 503 && !is_success(status) ==> (r matches Err(
            GpuLockClientError::Transport(m),
        ) && m@ == "unexpected status "@ + status_display(status)),
        status != 503 && is_success(status) ==> r is Ok,
{
    if status == 503 {
        return Err(GpuLockClientError::Timeout);
    }
    if !is_success_status(status) {
        let mut m = String::from_str("unexpected status ");
        let text = http_status_text(status);
        m.append(text.as_str());
        return Err(GpuLockClientError::Transport(m));
    }
    Ok(())
}

/// The lease carried by a successful acquire answer, given the `lease_id`
/// field read from its JSON body, or the text of the error that reading it
/// gave.
pub fn lease_from_acquire_body(lease_id: Result<String, String>) -> (r: Result<
    LeaseId,
    GpuLockClientError,
>)
    ensures
        match lease_id {
            Ok(id) => r matches Ok(lease) && lease@ == id@,
            Err(e) => r matches Err(GpuLockClientError::Transport(m)) && m@ == e@,
        },
{
    match lease_id {
        Ok(id) => Ok(LeaseId(id)),
        Err(e) => Err(GpuLockClientError::Transport(e)),
    }
}

/// What the broker's answer to a release means: success is success;
/// otherwise the release was rejected, with the status as HTTP writes it and
/// whatever body text could be read (none counts as empty). Statuses are
/// HTTP's, `100..=999`.
pub fn release_outcome(status: u16, body: Option<String>) -> (r: Result<(), GpuLockClientError>)
    requires
        100 <= status <= 999,
    ensures
        is_success(status) ==> r is Ok,
        !is_success(status) ==> (r matches Err(GpuLockClientError::ReleaseRejected(m)) && m@
            == "status "@ + status_display(status) + ": "@ + match body {
            Some(b) => b@,
            None => Seq::<char>::empty(),
        }),
{
    if is_success_status(status) {
        return Ok(());
    }
    let mut m = String::from_str("status ");
    let text = http_status_text(status);
    m.append(text.as_str());
    m.append(": ");
    match body {
        Some(b) => m.append(b.as_str()),
        None => {},
    }
    Err(GpuLockClientError::ReleaseRejected(m))
}

} // verus!
