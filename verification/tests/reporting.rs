use base64::engine::general_purpose::URL_SAFE_NO_PAD;
use base64::engine::Engine;

use jwt_inspect::builder::{build_output, Report};
use jwt_inspect::claims::ClaimMessage;
use jwt_inspect::errors::{Segment, TokenError};
use jwt_inspect::format_query_results;
use jwt_inspect::jwt_extension::decode_token;

fn none_token(payload_json: &str) -> String {
    format!(
        "{}.{}.",
        URL_SAFE_NO_PAD.encode(b"{\"alg\":\"none\"}"),
        URL_SAFE_NO_PAD.encode(payload_json.as_bytes())
    )
}

fn slice_chars(text: &str, start: usize, end: usize) -> String {
    text.chars().skip(start).take(end - start).collect()
}

fn check_partition(rep: &Report) {
    let total = rep.text.chars().count();
    assert!(!rep.sections.is_empty());
    assert_eq!(rep.sections[0].start, 0);
    for w in rep.sections.windows(2) {
        assert_eq!(w[0].end, w[1].start);
    }
    assert_eq!(rep.sections.last().unwrap().end, total);
}

#[test]
fn decode_with_two_claim_messages_yields_four_contiguous_sections() {
    let token = none_token("{\"iss\":\"me\",\"sub\":\"you\"}");
    let rep = decode_token(&token, 0).unwrap();
    let labels: Vec<&str> = rep.sections.iter().map(|s| s.label.as_str()).collect();
    assert_eq!(labels, vec!["Claims Analysis", "Header", "Payload", "Signature (base64url)"]);
    check_partition(&rep);
    let claims = slice_chars(&rep.text, rep.sections[0].start, rep.sections[0].end);
    assert_eq!(claims, "## Claims Analysis\n- Issuer (iss): me\n- Subject (sub): you\n\n");
}

#[test]
fn decode_without_claims_has_three_sections() {
    let token = none_token("{\"x\": 1}");
    let rep = decode_token(&token, 0).unwrap();
    let labels: Vec<&str> = rep.sections.iter().map(|s| s.label.as_str()).collect();
    assert_eq!(labels, vec!["Header", "Payload", "Signature (base64url)"]);
    check_partition(&rep);
}

#[test]
fn header_section_holds_pretty_json() {
    let token = none_token("{}");
    let rep = decode_token(&token, 0).unwrap();
    let hdr = slice_chars(&rep.text, rep.sections[0].start, rep.sections[0].end);
    assert_eq!(hdr, "## Header\n```json\n{\n  \"alg\": \"none\"\n}\n```\n\n");
}

#[test]
fn build_output_renders_warnings_emphasized() {
    let messages = vec![
        ClaimMessage { warning: false, text: "Issuer (iss): me".to_owned() },
        ClaimMessage { warning: true, text: "Warning: Token expired".to_owned() },
    ];
    let rep = build_output(
        messages,
        "{h}".to_owned(),
        "{p}".to_owned(),
        "SIG".to_owned(),
        Some(false),
    );
    let expected = "## Claims Analysis\n- Issuer (iss): me\n**Warning: Token expired**\n\n\
## Header\n```json\n{h}\n```\n\n\
## Payload\n```json\n{p}\n```\n\n\
## Signature\n```\nSIG\n```\n\n\
## Verification\n**Warning:** Signature is invalid.\n";
    assert_eq!(rep.text, expected);
    let labels: Vec<&str> = rep.sections.iter().map(|s| s.label.as_str()).collect();
    assert_eq!(
        labels,
        vec!["Claims Analysis", "Header", "Payload", "Signature (base64url)", "Verification"]
    );
    check_partition(&rep);
}

#[test]
fn build_output_with_valid_outcome() {
    let rep = build_output(Vec::new(), "h".to_owned(), "p".to_owned(), "s".to_owned(), Some(true));
    assert!(rep.text.ends_with("## Verification\nSignature is valid.\n"));
    check_partition(&rep);
}

#[test]
fn error_messages_name_the_fault() {
    assert_eq!(
        TokenError::Structure.message(),
        "invalid JWT format: must have exactly three parts separated by '.'"
    );
    assert_eq!(
        TokenError::Base64(Segment::Payload).message(),
        "invalid base64url in payload segment"
    );
    assert_eq!(TokenError::Utf8(Segment::Header).message(), "invalid UTF-8 in header segment");
    assert_eq!(
        TokenError::Syntax(Segment::Payload).message(),
        "invalid JSON object in payload segment"
    );
    assert_eq!(TokenError::MissingAlg.message(), "missing alg in header");
    assert_eq!(TokenError::KeyFormat.message(), "failed to parse public key");
    assert_eq!(TokenError::SignatureFormat.message(), "invalid signature length");
}

#[test]
fn query_results_table_is_exact() {
    assert_eq!(
        format_query_results(),
        "| id | name | email |\n| --- | --- | --- |\n| 1 | Alice | alice@example.com |\n| 2 | Bob | bob@example.com |\n"
    );
}
