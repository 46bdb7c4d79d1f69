//! Structural parsing of the compact token encoding: split on `.`, decode
//! each segment from unpadded base64url, decode header and payload as UTF-8
//! JSON objects, and keep the exact signing input — the literal substring in
//! front of the second dot, never a re-serialization.

use vstd::prelude::*;
use vstd::string::{StrSliceExecFns, StringExecFns};
use vstd::utf8::{decode_utf8, valid_utf8};

use crate::errors::{Segment, TokenError};
use crate::jsonval::{json_obj_text, parse_json_object, parsed_object_of};

use base64::engine::Engine;

verus! {

/// What base64url decoding (unpadded alphabet) yields on a text, if anything.
pub uninterp spec fn b64url_decode(s: Seq<char>) -> Option<Seq<u8>>;

/// The base64url encoding (unpadded alphabet) of a byte string.
pub uninterp spec fn b64url_encode(b: Seq<u8>) -> Seq<char>;

/// Relies on base64's URL_SAFE_NO_PAD engine: it decodes the unpadded
/// URL-safe alphabet and rejects padding and non-zero trailing bits, so every
/// decodable text is the canonical encoding of its bytes.
#[verifier::external_body]
fn b64_decode(s: &str) -> (r: Option<Vec<u8>>)
    ensures
        r is Some <==> b64url_decode(s@) is Some,
        r matches Some(b) ==> Some(b@) == b64url_decode(s@) && b64url_encode(b@) == s@,
{
    base64::engine::general_purpose::URL_SAFE_NO_PAD.decode(s).ok()
}

/// Relies on base64's URL_SAFE_NO_PAD engine: the encoding is a function of
/// the bytes alone, and decoding inverts it.
#[verifier::external_body]
fn b64_encode(b: &[u8]) -> (r: String)
    ensures
        r@ == b64url_encode(b@),
        b64url_decode(r@) == Some(b@),
{
    base64::engine::general_purpose::URL_SAFE_NO_PAD.encode(b)
}

/// Relies on String::from_utf8: it accepts exactly the valid UTF-8 byte
/// strings and decodes them to their characters.
#[verifier::external_body]
fn bytes_to_string(b: Vec<u8>) -> (r: Option<String>)
    ensures
        r is Some <==> valid_utf8(b@),
        r matches Some(s) ==> s@ == decode_utf8(b@),
{
    String::from_utf8(b).ok()
}

/// The positions of the `.` characters in `s`, in increasing order.
pub open spec fn dot_positions(s: Seq<char>) -> Seq<int>
    decreases s.len(),
{
    if s.len() == 0 {
        Seq::empty()
    } else if s.last() == '.' {
        dot_positions(s.drop_last()).push(s.len() - 1)
    } else {
        dot_positions(s.drop_last())
    }
}

pub proof fn lemma_dot_positions_bounds(s: Seq<char>)
    ensures
        forall|i: int|
            0 <= i < dot_positions(s).len() ==> 0 <= #[trigger] dot_positions(s)[i] < s.len(),
        forall|i: int, j: int|
            0 <= i < j < dot_positions(s).len() ==> dot_positions(s)[i] < dot_positions(s)[j],
        forall|i: int| 0 <= i < dot_positions(s).len() ==> s[#[trigger] dot_positions(s)[i]] == '.',
    decreases s.len(),
{
    if s.len() > 0 {
        lemma_dot_positions_bounds(s.drop_last());
        let prefix = dot_positions(s.drop_last());
        assert forall|i: int| 0 <= i < dot_positions(s).len() implies 0 <= #[trigger] dot_positions(
            s,
        )[i] < s.len() by {
            if i < prefix.len() {
                assert(dot_positions(s)[i] == prefix[i]);
            }
        }
        assert forall|i: int, j: int| 0 <= i < j < dot_positions(s).len() implies dot_positions(
            s,
        )[i] < dot_positions(s)[j] by {
            if j < prefix.len() {
                assert(dot_positions(s)[i] == prefix[i]);
                assert(dot_positions(s)[j] == prefix[j]);
            } else if i < prefix.len() {
                assert(dot_positions(s)[i] == prefix[i]);
            }
        }
        assert forall|i: int| 0 <= i < dot_positions(s).len() implies s[#[trigger] dot_positions(
            s,
        )[i]] == '.' by {
            if i < prefix.len() {
                assert(dot_positions(s)[i] == prefix[i]);
                assert(s.drop_last()[prefix[i]] == s[prefix[i]]);
            }
        }
    }
}

/// The first segment: everything before the first dot.
pub open spec fn header_segment(s: Seq<char>) -> Seq<char>
    recommends
        dot_positions(s).len() == 2,
{
    s.subrange(0, dot_positions(s)[0])
}

/// The second segment: everything between the two dots.
pub open spec fn payload_segment(s: Seq<char>) -> Seq<char>
    recommends
        dot_positions(s).len() == 2,
{
    s.subrange(dot_positions(s)[0] + 1, dot_positions(s)[1])
}

/// The third segment: everything after the second dot.
pub open spec fn signature_segment(s: Seq<char>) -> Seq<char>
    recommends
        dot_positions(s).len() == 2,
{
    s.subrange(dot_positions(s)[1], s.len() as int).drop_first()
}

/// The exact signing input: the literal text in front of the second dot.
pub open spec fn signing_prefix(s: Seq<char>) -> Seq<char>
    recommends
        dot_positions(s).len() == 2,
{
    s.subrange(0, dot_positions(s)[1])
}

/// The text a decodable segment holds: its bytes read as UTF-8.
pub open spec fn segment_text(seg: Seq<char>) -> Seq<char>
    recommends
        b64url_decode(seg) is Some,
{
    match b64url_decode(seg) {
        Some(bytes) => decode_utf8(bytes),
        None => Seq::empty(),
    }
}

/// The fault, if any, in taking a segment to a JSON object: base64url
/// decoding, then UTF-8 decoding, then JSON object parsing.
pub open spec fn segment_json_error(seg: Seq<char>, which: Segment) -> Option<TokenError> {
    match b64url_decode(seg) {
        None => Some(TokenError::Base64(which)),
        Some(bytes) => if !valid_utf8(bytes) {
            Some(TokenError::Utf8(which))
        } else if !json_obj_text(decode_utf8(bytes)) {
            Some(TokenError::Syntax(which))
        } else {
            None
        },
    }
}

/// The first fault, if any, in parsing a whole token, in evaluation order:
/// structure, then header, then payload, then the signature segment.
pub open spec fn parse_error(s: Seq<char>) -> Option<TokenError> {
    if dot_positions(s).len() != 2 {
        Some(TokenError::Structure)
    } else if segment_json_error(header_segment(s), Segment::Header) is Some {
        segment_json_error(header_segment(s), Segment::Header)
    } else if segment_json_error(payload_segment(s), Segment::Payload) is Some {
        segment_json_error(payload_segment(s), Segment::Payload)
    } else if b64url_decode(signature_segment(s)) is None {
        Some(TokenError::Base64(Segment::Signature))
    } else {
        None
    }
}

/// Everything the parser extracts from one token.
pub struct ParsedToken {
    /// The decoded header object.
    pub header: serde_json::Value,
    /// The decoded payload object.
    pub payload: serde_json::Value,
    /// The third segment as it stood in the token, for display.
    pub sig_text: String,
    /// The decoded signature bytes, for verification.
    pub sig_bytes: Vec<u8>,
    /// The exact byte-identical signing input.
    pub signing_input: String,
    /// The caller-supplied current time, echoed for the analysis stage.
    pub current_time: i64,
}

fn find_dots(s: &str) -> (dots: Vec<usize>)
    ensures
        dots@.map_values(|u: usize| u as int) == dot_positions(s@),
{
    let n = s.unicode_len();
    let mut dots: Vec<usize> = Vec::new();
    let mut i: usize = 0;
    while i < n
        invariant
            i <= n,
            n == s@.len(),
            dots@.map_values(|u: usize| u as int) == dot_positions(s@.take(i as int)),
        decreases n - i,
    {
        let c = s.get_char(i);
        proof {
            assert(s@.take(i + 1).drop_last() =~= s@.take(i as int));
            assert(s@.take(i + 1).last() == s@[i as int]);
        }
        if c == '.' {
            dots.push(i);
            proof {
                assert(dots@.map_values(|u: usize| u as int) =~= dot_positions(
                    s@.take(i as int),
                ).push(i as int));
            }
        }
        i = i + 1;
    }
    proof {
        assert(s@.take(n as int) =~= s@);
    }
    dots
}

fn decode_segment_json(seg: &str, which: Segment) -> (r: Result<serde_json::Value, TokenError>)
    ensures
        r is Err <==> segment_json_error(seg@, which) is Some,
        r matches Err(e) ==> Some(e) == segment_json_error(seg@, which),
        r matches Ok(v) ==> parsed_object_of(v, segment_text(seg@)),
{
    let bytes = match b64_decode(seg) {
        Some(b) => b,
        None => {
            return Err(TokenError::Base64(which));
        },
    };
    let text = match bytes_to_string(bytes) {
        Some(t) => t,
        None => {
            return Err(TokenError::Utf8(which));
        },
    };
    match parse_json_object(text.as_str()) {
        Some(v) => Ok(v),
        None => Err(TokenError::Syntax(which)),
    }
}

/// Splits and decodes a token. `now` is the current wall-clock time in epoch
/// seconds, injected by the caller so that the analysis stays deterministic.
pub fn parse_token(token: &str, now: i64) -> (r: Result<ParsedToken, TokenError>)
    ensures
        r is Err <==> parse_error(token@) is Some,
        r matches Err(e) ==> Some(e) == parse_error(token@),
        r matches Ok(t) ==> {
            &&& dot_positions(token@).len() == 2
            &&& parsed_object_of(t.header, segment_text(header_segment(token@)))
            &&& parsed_object_of(t.payload, segment_text(payload_segment(token@)))
            &&& t.signing_input@ == signing_prefix(token@)
            &&& t.signing_input@ == header_segment(token@) + seq!['.'] + payload_segment(token@)
            &&& t.sig_text@ == signature_segment(token@)
            &&& Some(t.sig_bytes@) == b64url_decode(signature_segment(token@))
            &&& t.current_time == now
        },
{
    let dots = find_dots(token);
    if dots.len() != 2 {
        return Err(TokenError::Structure);
    }
    let n = token.unicode_len();
    let d0 = dots[0];
    let d1 = dots[1];
    proof {
        lemma_dot_positions_bounds(token@);
        assert(dots@.map_values(|u: usize| u as int)[0] == d0 as int);
        assert(dots@.map_values(|u: usize| u as int)[1] == d1 as int);
    }
    let header_str = token.substring_char(0, d0);
    let payload_str = token.substring_char(d0 + 1, d1);
    let sig_str = token.substring_char(d1 + 1, n);
    proof {
        assert(payload_str@ =~= payload_segment(token@));
        assert(sig_str@ =~= signature_segment(token@));
        assert(signing_prefix(token@) =~= header_segment(token@) + seq!['.'] + payload_segment(
            token@,
        ));
    }
    let header = match decode_segment_json(header_str, Segment::Header) {
        Ok(v) => v,
        Err(e) => {
            return Err(e);
        },
    };
    let payload = match decode_segment_json(payload_str, Segment::Payload) {
        Ok(v) => v,
        Err(e) => {
            return Err(e);
        },
    };
    let sig_bytes = match b64_decode(sig_str) {
        Some(b) => b,
        None => {
            return Err(TokenError::Base64(Segment::Signature));
        },
    };
    let signing_input = token.substring_char(0, d1).to_owned();
    Ok(
        ParsedToken {
            header,
            payload,
            sig_text: sig_str.to_owned(),
            sig_bytes,
            signing_input,
            current_time: now,
        },
    )
}

/// Decodes a segment and re-encodes the bytes: for every decodable segment
/// the round trip reproduces the original text exactly.
pub fn reencode_segment(seg: &str) -> (r: Option<String>)
    ensures
        r is Some <==> b64url_decode(seg@) is Some,
        r matches Some(t) ==> t@ == seg@,
{
    match b64_decode(seg) {
        Some(bytes) => Some(b64_encode(bytes.as_slice())),
        None => None,
    }
}

} // verus!
