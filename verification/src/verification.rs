//! Signature verification: one evaluation per call, dispatching on the
//! header's `alg` over a fixed family of keyed-hash (HS*) and padded RSA
//! signature (RS*) schemes, plus `none`. A mismatch is a normal `false`;
//! only malformed inputs become errors.

use vstd::prelude::*;
use vstd::utf8::encode_utf8;

use crate::errors::TokenError;
use crate::jsonval::{get_str_field, json_obj_strs};

use hmac::Mac;
use rsa::pkcs1::DecodeRsaPublicKey;
use rsa::pkcs8::DecodePublicKey;
use rsa::signature::Verifier;

verus! {

/// The HMAC-SHA-256 tag over a message under a key.
pub uninterp spec fn hmac_sha256(key: Seq<u8>, msg: Seq<u8>) -> Seq<u8>;

/// The HMAC-SHA-384 tag over a message under a key.
pub uninterp spec fn hmac_sha384(key: Seq<u8>, msg: Seq<u8>) -> Seq<u8>;

/// The HMAC-SHA-512 tag over a message under a key.
pub uninterp spec fn hmac_sha512(key: Seq<u8>, msg: Seq<u8>) -> Seq<u8>;

/// Whether a text parses as a PEM-encoded RSA public key, in PKCS#1 or SPKI
/// form.
pub uninterp spec fn rsa_pem_ok(key: Seq<char>) -> bool;

/// The outcome of RSA PKCS#1 v1.5 verification with SHA-256.
pub uninterp spec fn rsa_pkcs1v15_sha256_ok(key: Seq<char>, msg: Seq<u8>, sig: Seq<u8>) -> bool;

/// The outcome of RSA PKCS#1 v1.5 verification with SHA-384.
pub uninterp spec fn rsa_pkcs1v15_sha384_ok(key: Seq<char>, msg: Seq<u8>, sig: Seq<u8>) -> bool;

/// The outcome of RSA PKCS#1 v1.5 verification with SHA-512.
pub uninterp spec fn rsa_pkcs1v15_sha512_ok(key: Seq<char>, msg: Seq<u8>, sig: Seq<u8>) -> bool;

/// Relies on hmac's `Hmac<Sha256>`: the tag is a function of key and message
/// alone, 32 bytes wide; keys of every length are accepted (long keys are
/// hashed first), so construction cannot fail.
#[verifier::external_body]
fn hmac_sha256_tag(key: &[u8], msg: &[u8]) -> (r: Vec<u8>)
    ensures
        r@ == hmac_sha256(key@, msg@),
        r@.len() == 32,
{
    let mut mac = <hmac::Hmac<sha2::Sha256> as Mac>::new_from_slice(key).unwrap();
    mac.update(msg);
    mac.finalize().into_bytes().to_vec()
}

/// Relies on hmac's `Hmac<Sha384>`: as for SHA-256, with a 48-byte tag.
#[verifier::external_body]
fn hmac_sha384_tag(key: &[u8], msg: &[u8]) -> (r: Vec<u8>)
    ensures
        r@ == hmac_sha384(key@, msg@),
        r@.len() == 48,
{
    let mut mac = <hmac::Hmac<sha2::Sha384> as Mac>::new_from_slice(key).unwrap();
    mac.update(msg);
    mac.finalize().into_bytes().to_vec()
}

/// Relies on hmac's `Hmac<Sha512>`: as for SHA-256, with a 64-byte tag.
#[verifier::external_body]
fn hmac_sha512_tag(key: &[u8], msg: &[u8]) -> (r: Vec<u8>)
    ensures
        r@ == hmac_sha512(key@, msg@),
        r@.len() == 64,
{
    let mut mac = <hmac::Hmac<sha2::Sha512> as Mac>::new_from_slice(key).unwrap();
    mac.update(msg);
    mac.finalize().into_bytes().to_vec()
}

/// Compares two byte strings for equality without an early exit on the first
/// differing byte, in the spirit of a constant-time tag comparison.
fn bytes_eq(a: &[u8], b: &[u8]) -> (r: bool)
    ensures
        r == (a@ == b@),
{
    if a.len() != b.len() {
        return false;
    }
    let n = a.len();
    let mut diff: u8 = 0;
    let mut i: usize = 0;
    while i < n
        invariant
            i <= n,
            n == a@.len() == b@.len(),
            (diff == 0) <==> (forall|j: int| 0 <= j < i ==> a@[j] == b@[j]),
        decreases n - i,
    {
        let x = a[i];
        let y = b[i];
        proof {
            assert((x ^ y) == 0 <==> x == y) by (bit_vector);
            assert(forall|d: u8, z: u8| (d | z) == 0 <==> d == 0 && z == 0) by (bit_vector);
        }
        diff = diff | (x ^ y);
        i = i + 1;
    }
    if diff == 0 {
        proof {
            assert(a@ =~= b@);
        }
        true
    } else {
        false
    }
}

/// Verifies an HS256 tag: recomputes the keyed hash over the signing input
/// and compares it to the presented signature.
pub(crate) fn verify_hmac_sha256(input: &str, sig: &[u8], key: &[u8]) -> (r: bool)
    ensures
        r == (sig@ == hmac_sha256(key@, encode_utf8(input@))),
{
    let tag = hmac_sha256_tag(key, input.as_bytes());
    bytes_eq(sig, tag.as_slice())
}

/// Verifies an HS384 tag.
pub(crate) fn verify_hmac_sha384(input: &str, sig: &[u8], key: &[u8]) -> (r: bool)
    ensures
        r == (sig@ == hmac_sha384(key@, encode_utf8(input@))),
{
    let tag = hmac_sha384_tag(key, input.as_bytes());
    bytes_eq(sig, tag.as_slice())
}

/// Verifies an HS512 tag.
pub(crate) fn verify_hmac_sha512(input: &str, sig: &[u8], key: &[u8]) -> (r: bool)
    ensures
        r == (sig@ == hmac_sha512(key@, encode_utf8(input@))),
{
    let tag = hmac_sha512_tag(key, input.as_bytes());
    bytes_eq(sig, tag.as_slice())
}

/// Relies on rsa's PEM parsers (`from_pkcs1_pem`, then `from_public_key_pem`)
/// and on `pkcs1v15::VerifyingKey::<Sha256>::verify`: the outcome is a
/// function of key text, message and signature bytes alone. Signature bytes
/// of every length are accepted by `Signature::try_from` in this crate
/// version, so only an unparseable key yields an error.
#[verifier::external_body]
pub(crate) fn verify_rsa_sha256(input: &str, sig: &[u8], key: &str) -> (r: Result<bool, TokenError>)
    ensures
        r is Ok <==> rsa_pem_ok(key@),
        r matches Ok(b) ==> b == rsa_pkcs1v15_sha256_ok(key@, encode_utf8(input@), sig@),
        r matches Err(e) ==> e == TokenError::KeyFormat,
{
    let public_key = rsa::RsaPublicKey::from_pkcs1_pem(key).or_else(
        |_| rsa::RsaPublicKey::from_public_key_pem(key),
    ).map_err(|_| TokenError::KeyFormat)?;
    let verifying_key = rsa::pkcs1v15::VerifyingKey::<sha2::Sha256>::new(public_key);
    let signature = rsa::pkcs1v15::Signature::try_from(sig).map_err(
        |_| TokenError::SignatureFormat,
    )?;
    Ok(verifying_key.verify(input.as_bytes(), &signature).is_ok())
}

/// Relies on the same rsa items with SHA-384.
#[verifier::external_body]
pub(crate) fn verify_rsa_sha384(input: &str, sig: &[u8], key: &str) -> (r: Result<bool, TokenError>)
    ensures
        r is Ok <==> rsa_pem_ok(key@),
        r matches Ok(b) ==> b == rsa_pkcs1v15_sha384_ok(key@, encode_utf8(input@), sig@),
        r matches Err(e) ==> e == TokenError::KeyFormat,
{
    let public_key = rsa::RsaPublicKey::from_pkcs1_pem(key).or_else(
        |_| rsa::RsaPublicKey::from_public_key_pem(key),
    ).map_err(|_| TokenError::KeyFormat)?;
    let verifying_key = rsa::pkcs1v15::VerifyingKey::<sha2::Sha384>::new(public_key);
    let signature = rsa::pkcs1v15::Signature::try_from(sig).map_err(
        |_| TokenError::SignatureFormat,
    )?;
    Ok(verifying_key.verify(input.as_bytes(), &signature).is_ok())
}

/// Relies on the same rsa items with SHA-512.
#[verifier::external_body]
pub(crate) fn verify_rsa_sha512(input: &str, sig: &[u8], key: &str) -> (r: Result<bool, TokenError>)
    ensures
        r is Ok <==> rsa_pem_ok(key@),
        r matches Ok(b) ==> b == rsa_pkcs1v15_sha512_ok(key@, encode_utf8(input@), sig@),
        r matches Err(e) ==> e == TokenError::KeyFormat,
{
    let public_key = rsa::RsaPublicKey::from_pkcs1_pem(key).or_else(
        |_| rsa::RsaPublicKey::from_public_key_pem(key),
    ).map_err(|_| TokenError::KeyFormat)?;
    let verifying_key = rsa::pkcs1v15::VerifyingKey::<sha2::Sha512>::new(public_key);
    let signature = rsa::pkcs1v15::Signature::try_from(sig).map_err(
        |_| TokenError::SignatureFormat,
    )?;
    Ok(verifying_key.verify(input.as_bytes(), &signature).is_ok())
}

/// What `verify` must return, given the `alg` string and the raw material.
pub open spec fn verify_outcome(
    alg: Seq<char>,
    msg: Seq<u8>,
    sig: Seq<u8>,
    key: Seq<char>,
) -> Result<bool, TokenError>
    recommends
        alg_supported(alg),
{
    if alg == "HS256"@ {
        Ok(sig == hmac_sha256(encode_utf8(key), msg))
    } else if alg == "HS384"@ {
        Ok(sig == hmac_sha384(encode_utf8(key), msg))
    } else if alg == "HS512"@ {
        Ok(sig == hmac_sha512(encode_utf8(key), msg))
    } else if alg == "RS256"@ {
        if rsa_pem_ok(key) {
            Ok(rsa_pkcs1v15_sha256_ok(key, msg, sig))
        } else {
            Err(TokenError::KeyFormat)
        }
    } else if alg == "RS384"@ {
        if rsa_pem_ok(key) {
            Ok(rsa_pkcs1v15_sha384_ok(key, msg, sig))
        } else {
            Err(TokenError::KeyFormat)
        }
    } else if alg == "RS512"@ {
        if rsa_pem_ok(key) {
            Ok(rsa_pkcs1v15_sha512_ok(key, msg, sig))
        } else {
            Err(TokenError::KeyFormat)
        }
    } else {
        // under the recommends, only "none" remains
        Ok(sig.len() == 0)
    }
}

/// Whether the `alg` string is in the supported set.
pub open spec fn alg_supported(alg: Seq<char>) -> bool {
    ||| alg == "HS256"@
    ||| alg == "HS384"@
    ||| alg == "HS512"@
    ||| alg == "RS256"@
    ||| alg == "RS384"@
    ||| alg == "RS512"@
    ||| alg == "none"@
}

/// Verifies the signature over the exact signing input under the header's
/// `alg`, with the key interpreted per scheme: raw secret bytes for HS*, a
/// PEM public key for RS*. A wrong signature is `Ok(false)`, never an error.
pub fn verify(header: &serde_json::Value, signing_input: &str, sig: &[u8], key: &str) -> (r:
    Result<bool, TokenError>)
    ensures
        !json_obj_strs(*header).dom().contains("alg"@) ==> (r matches Err(e) && e
            == TokenError::MissingAlg),
        json_obj_strs(*header).dom().contains("alg"@) ==> {
            let alg = json_obj_strs(*header)["alg"@];
            &&& alg_supported(alg) ==> r == verify_outcome(
                alg,
                encode_utf8(signing_input@),
                sig@,
                key@,
            )
            &&& !alg_supported(alg) ==> (r matches Err(e) && e matches TokenError::UnsupportedAlg(
                a,
            ) && a@ == alg)
        },
{
    let alg = match get_str_field(header, "alg") {
        Some(a) => a,
        None => {
            return Err(TokenError::MissingAlg);
        },
    };
    if alg == "HS256".to_owned() {
        Ok(verify_hmac_sha256(signing_input, sig, key.as_bytes()))
    } else if alg == "HS384".to_owned() {
        Ok(verify_hmac_sha384(signing_input, sig, key.as_bytes()))
    } else if alg == "HS512".to_owned() {
        Ok(verify_hmac_sha512(signing_input, sig, key.as_bytes()))
    } else if alg == "RS256".to_owned() {
        verify_rsa_sha256(signing_input, sig, key)
    } else if alg == "RS384".to_owned() {
        verify_rsa_sha384(signing_input, sig, key)
    } else if alg == "RS512".to_owned() {
        verify_rsa_sha512(signing_input, sig, key)
    } else if alg == "none".to_owned() {
        Ok(sig.len() == 0)
    } else {
        Err(TokenError::UnsupportedAlg(alg))
    }
}

} // verus!
