use aivyx_vision::svg::{
    extract_svg_markup, sanitize_svg, svg_from_completion, svg_prompt, SvgGenerationError,
    TextCompleterError, SVG_SYSTEM_PROMPT,
};

#[test]
fn extract_svg_markup_finds_a_bare_svg_block() {
    let response = "<svg xmlns=\"http://www.w3.org/2000/svg\"><circle r=\"5\"/></svg>";
    assert_eq!(extract_svg_markup(response), Some(response));
}

#[test]
fn extract_svg_markup_strips_a_surrounding_markdown_fence() {
    let response = "Here you go:\n```svg\n<svg><rect/></svg>\n```\nEnjoy!";
    assert_eq!(extract_svg_markup(response), Some("<svg><rect/></svg>"));
}

#[test]
fn extract_svg_markup_returns_none_when_no_svg_tag_present() {
    let response = "I can't generate images.";
    assert_eq!(extract_svg_markup(response), None);
}

#[test]
fn extract_svg_markup_returns_none_for_an_unclosed_svg_tag() {
    let response = "<svg><circle r=\"5\"/>";
    assert_eq!(extract_svg_markup(response), None);
}

#[test]
fn extract_svg_markup_returns_none_when_the_close_tag_comes_first() {
    assert_eq!(extract_svg_markup("</svg> then <svg"), None);
}

#[test]
fn extract_svg_markup_spans_from_first_open_to_last_close() {
    let response = "a <svg>1</svg> b <svg>2</svg> c";
    assert_eq!(extract_svg_markup(response), Some("<svg>1</svg> b <svg>2</svg>"));
}

#[test]
fn extract_svg_markup_keeps_non_ascii_text_intact() {
    let response = "Voilà — «<svg><text>café ☕</text></svg>» fin";
    assert_eq!(extract_svg_markup(response), Some("<svg><text>café ☕</text></svg>"));
}

#[test]
fn extract_svg_markup_is_idempotent_on_a_concrete_response() {
    let response = "```\n<svg><g/></svg>\n```";
    let once = extract_svg_markup(response).unwrap();
    assert_eq!(extract_svg_markup(once), Some(once));
}

#[test]
fn generate_svg_returns_clean_svg_from_a_fenced_response() {
    let raw = "```svg\n<svg xmlns=\"http://www.w3.org/2000/svg\"><circle r=\"5\"/></svg>\n```"
        .to_string();
    let svg = svg_from_completion(Ok(raw)).unwrap();
    assert!(svg.contains("<svg"));
    assert!(svg.contains("<circle"));
    assert!(!svg.contains("```"));
}

#[test]
fn generate_svg_sends_the_user_prompt_to_the_completer() {
    let sent = svg_prompt("a purple hexagon icon");
    assert!(sent.contains("a purple hexagon icon"));
}

#[test]
fn svg_prompt_is_the_instruction_followed_by_the_request() {
    let sent = svg_prompt("a cat");
    assert_eq!(sent, format!("{}a cat", SVG_SYSTEM_PROMPT));
    assert!(sent.ends_with("\n\nRequest: a cat"));
}

#[test]
fn generate_svg_errors_when_no_svg_is_present() {
    let err = svg_from_completion(Ok("I can't draw that.".to_string())).unwrap_err();
    assert!(matches!(err, SvgGenerationError::NoSvgFound));
}

#[test]
fn generate_svg_propagates_completer_errors() {
    let err = svg_from_completion(Err(TextCompleterError("timed out".into()))).unwrap_err();
    assert!(matches!(err, SvgGenerationError::Completion(_)));
}

#[test]
fn generate_svg_strips_a_script_tag() {
    let raw = "<svg xmlns=\"http://www.w3.org/2000/svg\"><script>alert(1)</script>\
               <circle r=\"5\"/></svg>"
        .to_string();
    let svg = svg_from_completion(Ok(raw)).unwrap();
    assert!(
        !svg.to_lowercase().contains("script"),
        "sanitizer must strip <script> entirely, got: {svg}"
    );
    assert!(svg.contains("circle"), "sanitizer must keep the safe content");
}

#[test]
fn sanitize_svg_strips_event_handler_attributes() {
    let svg = sanitize_svg(
        "<svg xmlns=\"http://www.w3.org/2000/svg\"><rect onclick=\"alert(1)\" width=\"3\"/></svg>",
    )
    .unwrap();
    assert!(!svg.contains("onclick"));
    assert!(svg.contains("rect"));
}

#[test]
fn sanitize_svg_rejects_malformed_markup() {
    let err = sanitize_svg("<svg><rect></svg>").unwrap_err();
    assert!(matches!(err, SvgGenerationError::Sanitization(_)));
}

#[test]
fn svg_errors_have_readable_messages() {
    assert_eq!(
        SvgGenerationError::NoSvgFound.message(),
        "no <svg>...</svg> markup found in the completion response"
    );
    assert_eq!(
        SvgGenerationError::Completion(TextCompleterError("backend down".into())).message(),
        "text completion failed: backend down"
    );
    assert_eq!(
        SvgGenerationError::Sanitization("XML parsing error".into()).message(),
        "SVG sanitization failed: XML parsing error"
    );
}
