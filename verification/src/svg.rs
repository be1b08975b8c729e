//! SVG generation: extracting the `<svg>...</svg>` block from a completion
//! response and sanitizing it before it is ever handed back to a caller.

use vstd::prelude::*;
use vstd::string::{StrSliceExecFns, StringExecFns, StringSliceAdditionalSpecFns};
use vstd::utf8::{decode_utf8, encode_utf8, valid_utf8};

use crate::text::{
    find_first, find_last, first_index_of, is_first_occurrence, is_last_occurrence,
    last_index_of, lemma_first_index_of, lemma_first_occurrence_exists, lemma_last_index_of,
    lemma_last_occurrence_exists, occurs_at, str_chars,
};

verus! {

/// The opening-tag prefix `<svg`.
pub open spec fn svg_open_tag() -> Seq<char> {
    seq!['<', 's', 'v', 'g']
}

/// The closing tag `</svg>`.
pub open spec fn svg_close_tag() -> Seq<char> {
    seq!['<', '/', 's', 'v', 'g', '>']
}

/// The SVG block of a completion response: from the first `<svg` to the end
/// of the last `</svg>`, both included. There is none when either tag is
/// missing, or when that `</svg>` ends at or before that `<svg` starts.
pub open spec fn svg_markup_of(response: Seq<char>) -> Option<Seq<char>> {
    match (first_index_of(response, svg_open_tag()), last_index_of(response, svg_close_tag())) {
        (Some(start), Some(last)) => {
            let end = last + svg_close_tag().len();
            if end <= start {
                None
            } else {
                Some(response.subrange(start, end))
            }
        },
        _ => None,
    }
}

/// Pull the `<svg>...</svg>` block out of an arbitrary completion response:
/// the slice from the first `<svg` to the end of the last `</svg>`. This
/// tolerates a markdown code fence or explanatory prose around the block.
/// Returns `None` if no `<svg`/`</svg>` pair is present, or if the `</svg>`
/// found ends before the `<svg` found starts (a malformed or truncated
/// response).
pub fn extract_svg_markup(response: &str) -> (r: Option<&str>)
    ensures
        match r {
            Some(m) => svg_markup_of(response@) == Some(m@),
            None => svg_markup_of(response@) is None,
        },
{
    let chars = str_chars(response);
    let open: Vec<char> = vec!['<', 's', 'v', 'g'];
    let close: Vec<char> = vec!['<', '/', 's', 'v', 'g', '>'];
    assert(open@ =~= svg_open_tag());
    assert(close@ =~= svg_close_tag());
    let start = match find_first(&chars, &open) {
        Some(i) => i,
        None => {
            assert(first_index_of(response@, svg_open_tag()) is None);
            return None;
        },
    };
    proof {
        lemma_first_index_of(response@, svg_open_tag(), start as int);
    }
    let last = match find_last(&chars, &close) {
        Some(i) => i,
        None => {
            assert(last_index_of(response@, svg_close_tag()) is None);
            return None;
        },
    };
    proof {
        lemma_last_index_of(response@, svg_close_tag(), last as int);
    }
    let n = chars.len();
    assert(last + 6 <= n);
    let end = last + 6;
    if end <= start {
        return None;
    }
    Some(response.substring_char(start, end))
}


/// An opening tag can start no later than a closing tag can end unless it
/// starts before that closing tag: `<svg` and `</svg>` cannot overlap.
proof fn lemma_tags_ordered(s: Seq<char>, a: int, b: int)
    requires
        occurs_at(s, svg_open_tag(), a),
        occurs_at(s, svg_close_tag(), b),
        a < b + svg_close_tag().len(),
    ensures
        a < b,
{
    if a == b {
        assert(s.subrange(a, a + 4)[1] == s[a + 1]);
        assert(s.subrange(b, b + 6)[1] == s[b + 1]);
    } else if b < a {
        assert(s.subrange(a, a + 4)[0] == s[a]);
        assert(s.subrange(b, b + 6)[a - b] == s[a]);
    }
}

/// Law: whenever an SVG block is found, it is a contiguous part of the
/// response that begins with `<svg` and ends with `</svg>`.
pub proof fn lemma_svg_markup_is_a_tagged_block(response: Seq<char>)
    ensures
        svg_markup_of(response) matches Some(m) ==> {
            &&& occurs_at(m, svg_open_tag(), 0)
            &&& occurs_at(m, svg_close_tag(), m.len() - svg_close_tag().len())
            &&& exists|a: int|
                0 <= a && a + m.len() <= response.len() && #[trigger] response.subrange(
                    a,
                    a + m.len(),
                ) == m
        },
{
    let fo = first_index_of(response, svg_open_tag());
    let lc = last_index_of(response, svg_close_tag());
    if let (Some(a), Some(b)) = (fo, lc) {
        if b + 6 > a {
            assert(is_first_occurrence(response, svg_open_tag(), a));
            assert(is_last_occurrence(response, svg_close_tag(), b));
            lemma_tags_ordered(response, a, b);
            let m = response.subrange(a, b + 6);
            assert(m.subrange(0, 4) =~= response.subrange(a, a + 4));
            assert(m.subrange(m.len() - 6, m.len() as int) =~= response.subrange(b, b + 6));
            assert(response.subrange(a, a + m.len()) == m);
        }
    }
}

/// `m` stands in `response` at `a`, no `<svg` starts before it, and no
/// `</svg>` starts after its closing tag.
pub open spec fn spans_first_open_to_last_close(response: Seq<char>, m: Seq<char>, a: int) -> bool {
    &&& 0 <= a
    &&& a + m.len() <= response.len()
    &&& response.subrange(a, a + m.len()) == m
    &&& forall|j: int| 0 <= j < a ==> !occurs_at(response, svg_open_tag(), j)
    &&& forall|j: int|
        a + m.len() - svg_close_tag().len() < j ==> !occurs_at(response, svg_close_tag(), j)
}

/// Law: the block found runs from the response's earliest `<svg` to the end
/// of its latest `</svg>`: no `<svg` starts before the block, and no
/// `</svg>` starts after the block's own closing tag. (The result is where
/// the block starts.)
pub proof fn lemma_svg_markup_spans_first_open_to_last_close(response: Seq<char>) -> (a: int)
    ensures
        svg_markup_of(response) matches Some(m) ==> spans_first_open_to_last_close(response, m, a),
{
    let fo = first_index_of(response, svg_open_tag());
    let lc = last_index_of(response, svg_close_tag());
    if let (Some(a), Some(b)) = (fo, lc) {
        if b + 6 > a {
            assert(is_first_occurrence(response, svg_open_tag(), a));
            assert(is_last_occurrence(response, svg_close_tag(), b));
            let m = response.subrange(a, b + 6);
            assert(response.subrange(a, a + m.len()) == m);
        }
        a
    } else {
        0
    }
}

/// Law: extraction is idempotent; the block extracted from a response is its
/// own block.
pub proof fn lemma_svg_markup_idempotent(response: Seq<char>)
    ensures
        svg_markup_of(response) matches Some(m) ==> svg_markup_of(m) == Some(m),
{
    lemma_svg_markup_is_a_tagged_block(response);
    if let Some(m) = svg_markup_of(response) {
        let last = m.len() - 6;
        assert(is_first_occurrence(m, svg_open_tag(), 0));
        assert(is_last_occurrence(m, svg_close_tag(), last));
        lemma_first_index_of(m, svg_open_tag(), 0);
        lemma_last_index_of(m, svg_close_tag(), last);
        assert(m.subrange(0, m.len() as int) =~= m);
    }
}

/// Law: a response has an SVG block exactly when some `<svg` occurs in it
/// before some `</svg>`.
pub proof fn lemma_svg_markup_present_iff_tags_in_order(response: Seq<char>)
    ensures
        svg_markup_of(response) is Some <==> exists|a: int, b: int|
            occurs_at(response, svg_open_tag(), a) && occurs_at(response, svg_close_tag(), b) && a
                < b,
{
    let fo = first_index_of(response, svg_open_tag());
    let lc = last_index_of(response, svg_close_tag());
    if svg_markup_of(response) is Some {
        let a = fo->Some_0;
        let b = lc->Some_0;
        assert(is_first_occurrence(response, svg_open_tag(), a));
        assert(is_last_occurrence(response, svg_close_tag(), b));
        lemma_tags_ordered(response, a, b);
    }
    if exists|a: int, b: int|
        occurs_at(response, svg_open_tag(), a) && occurs_at(response, svg_close_tag(), b) && a < b {
        let (a, b) = choose|a: int, b: int|
            occurs_at(response, svg_open_tag(), a) && occurs_at(response, svg_close_tag(), b) && a
                < b;
        lemma_first_occurrence_exists(response, svg_open_tag(), a);
        lemma_last_occurrence_exists(response, svg_close_tag(), b);
        let a0 = choose|k: int| k <= a && is_first_occurrence(response, svg_open_tag(), k);
        let b0 = choose|k: int| b <= k && is_last_occurrence(response, svg_close_tag(), k);
        lemma_first_index_of(response, svg_open_tag(), a0);
        lemma_last_index_of(response, svg_close_tag(), b0);
    }
}

/// An error from the caller-supplied text-completion backend. Opaque by
/// design: the message is whatever that backend's adapter chose to surface.
#[derive(Debug, PartialEq, Eq)]
pub struct TextCompleterError(pub String);

/// Everything that can go wrong generating an SVG.
#[derive(Debug)]
pub enum SvgGenerationError {
    /// The completion backend itself failed.
    Completion(TextCompleterError),
    /// The completion held no `<svg>...</svg>` block.
    NoSvgFound,
    /// The sanitizer rejected the markup, or its output was not UTF-8.
    Sanitization(String),
}

/// The human-readable message of a completion-backend error.
pub open spec fn text_completer_error_text(e: TextCompleterError) -> Seq<char> {
    "text completion failed: "@ + e.0@
}

/// The human-readable message of each SVG generation error; a backend
/// failure shows the backend error's own message.
pub open spec fn svg_generation_error_text(e: SvgGenerationError) -> Seq<char> {
    match e {
        SvgGenerationError::Completion(c) => text_completer_error_text(c),
        SvgGenerationError::NoSvgFound => "no <svg>...</svg> markup found in the completion response"@,
        SvgGenerationError::Sanitization(m) => "SVG sanitization failed: "@ + m@,
    }
}

impl TextCompleterError {
    /// The error's message.
    pub fn message(&self) -> (r: String)
        ensures
            r@ == text_completer_error_text(*self),
    {
        let mut r = String::from_str("text completion failed: ");
        r.append(self.0.as_str());
        r
    }
}

impl SvgGenerationError {
    /// The error's message.
    pub fn message(&self) -> (r: String)
        ensures
            r@ == svg_generation_error_text(*self),
    {
        match self {
            SvgGenerationError::Completion(c) => c.message(),
            SvgGenerationError::NoSvgFound => String::from_str(
                "no <svg>...</svg> markup found in the completion response",
            ),
            SvgGenerationError::Sanitization(m) => {
                let mut r = String::from_str("SVG sanitization failed: ");
                r.append(m.as_str());
                r
            },
        }
    }
}

/// The instruction placed before the user's request in every prompt.
pub const SVG_SYSTEM_PROMPT: &'static str = "You are generating a single, self-contained SVG image for the request below. Respond with ONLY the SVG markup, starting with `<svg` and ending with `</svg>`. Do not include any explanation, and do not reference any external file, URL, font, or resource -- everything must be inline within the SVG itself.\n\nRequest: ";

/// The full prompt sent to the completion backend for `user_prompt`: the
/// fixed instruction text followed by the user's own request, verbatim.
pub fn svg_prompt(user_prompt: &str) -> (p: String)
    ensures
        p@ == SVG_SYSTEM_PROMPT@ + user_prompt@,
{
    let mut p = String::from_str(SVG_SYSTEM_PROMPT);
    p.append(user_prompt);
    p
}

/// What svg-hush's filter, configured to let through only standard inline
/// image `data:` URLs, makes of an SVG document's bytes: the filtered
/// document, or the text of its error.
pub uninterp spec fn svg_hush_standard_filter(input: Seq<u8>) -> Result<Seq<u8>, Seq<char>>;

/// The text of the error that `String::from_utf8` reports for `bytes`.
pub uninterp spec fn utf8_error_text(bytes: Seq<u8>) -> Seq<char>;

/// Runs `svg_hush::Filter::filter` over `input`, with the filter's data-URL
/// policy set to `svg_hush::data_url_filter::allow_standard_images`. Claimed:
/// the output bytes, or the error's text, are those that
/// `svg_hush_standard_filter` names for the input; the filter is a
/// deterministic function of its input.
#[verifier::external_body]
fn run_svg_hush(input: &[u8]) -> (r: Result<Vec<u8>, String>)
    ensures
        match (r, svg_hush_standard_filter(input@)) {
            (Ok(out), Ok(expected)) => out@ == expected,
            (Err(msg), Err(expected)) => msg@ == expected,
            _ => false,
        },
{
    let mut filter = svg_hush::Filter::new();
    filter.set_data_url_filter(svg_hush::data_url_filter::allow_standard_images);
    let mut out = Vec::new();
    match filter.filter(input, &mut out) {
        Ok(()) => Ok(out),
        Err(e) => Err(e.to_string()),
    }
}

/// Calls `String::from_utf8`. Claimed, as its documentation says: it
/// succeeds exactly on valid UTF-8, and then the string holds the decoded
/// characters; otherwise the error's text is `utf8_error_text` of the bytes.
#[verifier::external_body]
fn string_from_utf8(bytes: Vec<u8>) -> (r: Result<String, String>)
    ensures
        match r {
            Ok(s) => valid_utf8(bytes@) && s@ == decode_utf8(bytes@),
            Err(msg) => !valid_utf8(bytes@) && msg@ == utf8_error_text(bytes@),
        },
{
    String::from_utf8(bytes).map_err(|e| e.to_string())
}

/// The sanitizer's verdict on an SVG document: the clean document, or the
/// message of the failure (from the filter, or from decoding its output).
pub open spec fn sanitized_svg(svg: Seq<char>) -> Result<Seq<char>, Seq<char>> {
    match svg_hush_standard_filter(encode_utf8(svg)) {
        Ok(out) => if valid_utf8(out) {
            Ok(decode_utf8(out))
        } else {
            Err(utf8_error_text(out))
        },
        Err(msg) => Err(msg),
    }
}

/// Run `svg` through svg-hush's allowlist-based filter: strips `<script>`,
/// `on*` event-handler attributes and cross-origin references, and rejects
/// any `data:` URL that is not a standard inline image.
pub fn sanitize_svg(svg: &str) -> (r: Result<String, SvgGenerationError>)
    ensures
        match (r, sanitized_svg(svg@)) {
            (Ok(clean), Ok(expected)) => clean@ == expected,
            (Err(SvgGenerationError::Sanitization(msg)), Err(expected)) => msg@ == expected,
            _ => false,
        },
{
    let bytes = svg.as_bytes();
    assert(bytes@ == encode_utf8(svg@));
    match run_svg_hush(bytes) {
        Ok(out) => match string_from_utf8(out) {
            Ok(clean) => Ok(clean),
            Err(msg) => Err(SvgGenerationError::Sanitization(msg)),
        },
        Err(msg) => Err(SvgGenerationError::Sanitization(msg)),
    }
}

/// Law: sanitizing fails only when svg-hush's filter fails, or when its
/// output is not UTF-8: whenever the filter accepts the document's UTF-8
/// bytes, the sanitized SVG is exactly the filter's output, decoded; and a
/// failure carries the filter's error text, or the decoding error's.
pub proof fn lemma_sanitizing_is_the_filter_alone(svg: Seq<char>)
    ensures
        match svg_hush_standard_filter(encode_utf8(svg)) {
            Ok(out) => if valid_utf8(out) {
                sanitized_svg(svg) == Ok::<Seq<char>, Seq<char>>(decode_utf8(out))
            } else {
                sanitized_svg(svg) == Err::<Seq<char>, Seq<char>>(utf8_error_text(out))
            },
            Err(msg) => sanitized_svg(svg) == Err::<Seq<char>, Seq<char>>(msg),
        },
{
}

/// The rest of SVG generation once the completion backend has replied with
/// `raw`: the backend's error is passed through; a reply without an SVG block
/// is `NoSvgFound`; otherwise the block is sanitized, and only the sanitizer's
/// output is ever returned.
pub fn svg_from_completion(raw: Result<String, TextCompleterError>) -> (r: Result<
    String,
    SvgGenerationError,
>)
    ensures
        match raw {
            Err(e) => r == Err::<String, SvgGenerationError>(SvgGenerationError::Completion(e)),
            Ok(text) => match svg_markup_of(text@) {
                None => r is Err && r->Err_0 is NoSvgFound,
                Some(markup) => match (r, sanitized_svg(markup)) {
                    (Ok(clean), Ok(expected)) => clean@ == expected,
                    (Err(SvgGenerationError::Sanitization(msg)), Err(expected)) => msg@ == expected,
                    _ => false,
                },
            },
        },
{
    match raw {
        Err(e) => Err(SvgGenerationError::Completion(e)),
        Ok(text) => match extract_svg_markup(text.as_str()) {
            None => Err(SvgGenerationError::NoSvgFound),
            Some(markup) => sanitize_svg(markup),
        },
    }
}

} // verus!
