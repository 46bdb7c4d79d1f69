//! The failure taxonomy for token inspection: every malformed input is
//! reported as one of these, never as a panic; a signature that merely does
//! not match is a normal `false` result, not an error.

use vstd::prelude::*;
use vstd::string::StringExecFns;

verus! {

/// Which of the three dot-separated segments a decoding fault concerns.
#[derive(Clone, Copy, Debug, PartialEq, Eq, Structural)]
pub enum Segment {
    Header,
    Payload,
    Signature,
}

/// Everything that can go wrong while parsing or verifying a token.
#[derive(Debug)]
pub enum TokenError {
    /// The token does not consist of exactly three dot-separated segments.
    Structure,
    /// A segment is not valid unpadded base64url.
    Base64(Segment),
    /// Decoded header or payload bytes are not valid UTF-8.
    Utf8(Segment),
    /// Decoded header or payload text is not a JSON object.
    Syntax(Segment),
    /// The header has no `alg` field with a string value.
    MissingAlg,
    /// The `alg` value is not in the supported set; carries that value.
    UnsupportedAlg(String),
    /// The key material cannot be parsed for the selected algorithm.
    KeyFormat,
    /// The signature bytes cannot be interpreted under the selected scheme.
    SignatureFormat,
}

pub open spec fn segment_name(s: Segment) -> Seq<char> {
    match s {
        Segment::Header => "header"@,
        Segment::Payload => "payload"@,
        Segment::Signature => "signature"@,
    }
}

pub open spec fn error_text(e: TokenError) -> Seq<char> {
    match e {
        TokenError::Structure => "invalid JWT format: must have exactly three parts separated by '.'"@,
        TokenError::Base64(s) => "invalid base64url in "@ + segment_name(s) + " segment"@,
        TokenError::Utf8(s) => "invalid UTF-8 in "@ + segment_name(s) + " segment"@,
        TokenError::Syntax(s) => "invalid JSON object in "@ + segment_name(s) + " segment"@,
        TokenError::MissingAlg => "missing alg in header"@,
        TokenError::UnsupportedAlg(a) => "unsupported algorithm: "@ + a@,
        TokenError::KeyFormat => "failed to parse public key"@,
        TokenError::SignatureFormat => "invalid signature length"@,
    }
}

fn segment_str(s: Segment) -> (r: &'static str)
    ensures
        r@ == segment_name(s),
{
    match s {
        Segment::Header => "header",
        Segment::Payload => "payload",
        Segment::Signature => "signature",
    }
}

impl TokenError {
    /// One line of text describing the failure.
    pub fn message(&self) -> (r: String)
        ensures
            r@ == error_text(*self),
    {
        match self {
            TokenError::Structure => {
                "invalid JWT format: must have exactly three parts separated by '.'".to_owned()
            },
            TokenError::Base64(s) => {
                let mut t = "invalid base64url in ".to_owned();
                t.append(segment_str(*s));
                t.append(" segment");
                t
            },
            TokenError::Utf8(s) => {
                let mut t = "invalid UTF-8 in ".to_owned();
                t.append(segment_str(*s));
                t.append(" segment");
                t
            },
            TokenError::Syntax(s) => {
                let mut t = "invalid JSON object in ".to_owned();
                t.append(segment_str(*s));
                t.append(" segment");
                t
            },
            TokenError::MissingAlg => "missing alg in header".to_owned(),
            TokenError::UnsupportedAlg(a) => {
                let mut t = "unsupported algorithm: ".to_owned();
                t.append(a.as_str());
                t
            },
            TokenError::KeyFormat => "failed to parse public key".to_owned(),
            TokenError::SignatureFormat => "invalid signature length".to_owned(),
        }
    }
}

} // verus!
