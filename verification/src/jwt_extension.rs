//! The two entry operations: decode a token into a report, and verify a
//! token against a key and report the outcome. The host-side command layer
//! maps subcommands onto these and renders the report.

use vstd::prelude::*;
use vstd::utf8::encode_utf8;

use crate::builder::{build_output, report_sections, report_text, secs_view, Report, SectionView};
use crate::claims::{analyze_claims, claims_messages, ClaimMessageView};
use crate::errors::TokenError;
use crate::jsonval::{
    json_text_ints, json_text_pretty, json_text_str_lists, json_text_strs, to_pretty,
};
use crate::parser::{
    b64url_decode, header_segment, parse_error, parse_token, payload_segment, segment_text,
    signature_segment, signing_prefix,
};
use crate::verification::{alg_supported, verify, verify_outcome};

verus! {

/// Marker state for the token-inspection extension; the host-side glue
/// constructs it.
pub struct JwtExtension;

/// The text of a well-formed token's header object.
pub open spec fn header_text(s: Seq<char>) -> Seq<char>
    recommends
        parse_error(s) is None,
{
    segment_text(header_segment(s))
}

/// The text of a well-formed token's payload object.
pub open spec fn payload_text(s: Seq<char>) -> Seq<char>
    recommends
        parse_error(s) is None,
{
    segment_text(payload_segment(s))
}

/// The analysis messages a well-formed token's payload yields at `now`.
pub open spec fn token_messages(s: Seq<char>, now: int) -> Seq<ClaimMessageView>
    recommends
        parse_error(s) is None,
{
    claims_messages(
        json_text_strs(payload_text(s)),
        json_text_ints(payload_text(s)),
        json_text_str_lists(payload_text(s)),
        now,
    )
}

/// The report text for a well-formed token, with the given outcome.
pub open spec fn token_report_text(s: Seq<char>, now: int, outcome: Option<bool>) -> Seq<char>
    recommends
        parse_error(s) is None,
{
    report_text(
        token_messages(s, now),
        json_text_pretty(header_text(s)),
        json_text_pretty(payload_text(s)),
        signature_segment(s),
        outcome,
    )
}

/// The report sections for a well-formed token, with the given outcome.
pub open spec fn token_report_sections(s: Seq<char>, now: int, outcome: Option<bool>) -> Seq<
    SectionView,
>
    recommends
        parse_error(s) is None,
{
    report_sections(
        token_messages(s, now),
        json_text_pretty(header_text(s)),
        json_text_pretty(payload_text(s)),
        signature_segment(s),
        outcome,
    )
}

/// Whether a well-formed token's header carries a string `alg`.
pub open spec fn token_alg_present(s: Seq<char>) -> bool
    recommends
        parse_error(s) is None,
{
    json_text_strs(header_text(s)).dom().contains("alg"@)
}

/// The `alg` string of a well-formed token's header.
pub open spec fn token_alg(s: Seq<char>) -> Seq<char>
    recommends
        parse_error(s) is None,
        token_alg_present(s),
{
    json_text_strs(header_text(s))["alg"@]
}

/// The decoded signature bytes of a well-formed token.
pub open spec fn token_sig_bytes(s: Seq<char>) -> Seq<u8>
    recommends
        parse_error(s) is None,
{
    match b64url_decode(signature_segment(s)) {
        Some(b) => b,
        None => Seq::empty(),
    }
}

/// What the verification stage returns for a well-formed token with a
/// supported algorithm.
pub open spec fn token_verify_outcome(s: Seq<char>, key: Seq<char>) -> Result<bool, TokenError>
    recommends
        parse_error(s) is None,
        token_alg_present(s),
        alg_supported(token_alg(s)),
{
    verify_outcome(token_alg(s), encode_utf8(signing_prefix(s)), token_sig_bytes(s), key)
}

/// When the verify operation is owed a report: the token parses, its header
/// names a supported algorithm, and the key parses for that algorithm.
pub open spec fn verify_succeeds(s: Seq<char>, key: Seq<char>) -> bool {
    &&& parse_error(s) is None
    &&& token_alg_present(s)
    &&& alg_supported(token_alg(s))
    &&& token_verify_outcome(s, key) is Ok
}

/// The boolean verdict of a successful verification.
pub open spec fn token_verdict(s: Seq<char>, key: Seq<char>) -> bool
    recommends
        verify_succeeds(s, key),
{
    match token_verify_outcome(s, key) {
        Ok(b) => b,
        Err(_) => false,
    }
}

/// Decodes a token and assembles the report, without verification.
/// `now` is the current wall-clock time in epoch seconds, injected by the
/// caller.
pub fn decode_token(token: &str, now: i64) -> (r: Result<Report, TokenError>)
    ensures
        r is Err <==> parse_error(token@) is Some,
        r matches Err(e) ==> Some(e) == parse_error(token@),
        r matches Ok(rep) ==> rep.text@ == token_report_text(token@, now as int, None)
            && secs_view(rep.sections@) == token_report_sections(token@, now as int, None),
{
    let t = match parse_token(token, now) {
        Ok(t) => t,
        Err(e) => {
            return Err(e);
        },
    };
    let messages = analyze_claims(&t.payload, t.current_time);
    let header_json = to_pretty(&t.header);
    let payload_json = to_pretty(&t.payload);
    let rep = build_output(messages, header_json, payload_json, t.sig_text, None);
    Ok(rep)
}

/// Verifies a token against the key and assembles the report, its last
/// section carrying the outcome. A signature that does not match is a
/// report with a `false` outcome, not an error; a report is owed exactly
/// when the token parses, its `alg` is supported, and the key parses.
pub fn verify_token(token: &str, key: &str, now: i64) -> (r: Result<Report, TokenError>)
    ensures
        r is Ok <==> verify_succeeds(token@, key@),
        parse_error(token@) matches Some(e) ==> (r matches Err(e2) && e2 == e),
        parse_error(token@) is None && !token_alg_present(token@) ==> (r matches Err(e) && e
            == TokenError::MissingAlg),
        parse_error(token@) is None && token_alg_present(token@) && !alg_supported(
            token_alg(token@),
        ) ==> (r matches Err(e) && e matches TokenError::UnsupportedAlg(a) && a@ == token_alg(
            token@,
        )),
        parse_error(token@) is None && token_alg_present(token@) && alg_supported(
            token_alg(token@),
        ) && token_verify_outcome(token@, key@) is Err ==> (r matches Err(e) && e
            == TokenError::KeyFormat),
        r matches Ok(rep) ==> rep.text@ == token_report_text(
            token@,
            now as int,
            Some(token_verdict(token@, key@)),
        ) && secs_view(rep.sections@) == token_report_sections(
            token@,
            now as int,
            Some(token_verdict(token@, key@)),
        ),
{
    let t = match parse_token(token, now) {
        Ok(t) => t,
        Err(e) => {
            return Err(e);
        },
    };
    let is_valid = match verify(&t.header, t.signing_input.as_str(), t.sig_bytes.as_slice(), key) {
        Ok(b) => b,
        Err(e) => {
            return Err(e);
        },
    };
    let messages = analyze_claims(&t.payload, t.current_time);
    let header_json = to_pretty(&t.header);
    let payload_json = to_pretty(&t.payload);
    let rep = build_output(messages, header_json, payload_json, t.sig_text, Some(is_valid));
    Ok(rep)
}

} // verus!
