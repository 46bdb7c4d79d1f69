use base64::engine::general_purpose::URL_SAFE_NO_PAD;
use base64::engine::Engine;
use hmac::Mac;
use rsa::pkcs8::EncodePublicKey;
use rsa::signature::{SignatureEncoding, Signer};

use jwt_inspect::errors::TokenError;
use jwt_inspect::jwt_extension::verify_token;
use jwt_inspect::verification::verify;

fn header(s: &str) -> serde_json::Value {
    serde_json::from_str(s).unwrap()
}

fn hs256_token(key: &str, header_json: &str, payload_json: &str) -> String {
    let h = URL_SAFE_NO_PAD.encode(header_json.as_bytes());
    let p = URL_SAFE_NO_PAD.encode(payload_json.as_bytes());
    let signing_input = format!("{}.{}", h, p);
    let mut mac = hmac::Hmac::<sha2::Sha256>::new_from_slice(key.as_bytes()).unwrap();
    mac.update(signing_input.as_bytes());
    let tag = mac.finalize().into_bytes();
    format!("{}.{}", signing_input, URL_SAFE_NO_PAD.encode(tag))
}

#[test]
fn alg_none_is_valid_iff_signature_empty() {
    let h = header("{\"alg\":\"none\"}");
    assert_eq!(verify(&h, "a.b", &[], "whatever").unwrap(), true);
    assert_eq!(verify(&h, "a.b", &[0u8], "whatever").unwrap(), false);
    assert_eq!(verify(&h, "a.b", &[1, 2, 3], "").unwrap(), false);
}

#[test]
fn missing_alg_is_an_error() {
    let h = header("{\"typ\":\"JWT\"}");
    assert!(matches!(verify(&h, "a.b", &[], "k"), Err(TokenError::MissingAlg)));
    let h2 = header("{\"alg\": 5}");
    assert!(matches!(verify(&h2, "a.b", &[], "k"), Err(TokenError::MissingAlg)));
}

#[test]
fn unsupported_alg_is_an_error() {
    let h = header("{\"alg\":\"ES256\"}");
    let e = verify(&h, "a.b", &[], "k").unwrap_err();
    match &e {
        TokenError::UnsupportedAlg(a) => assert_eq!(a, "ES256"),
        other => panic!("unexpected error {:?}", other),
    }
    assert_eq!(e.message(), "unsupported algorithm: ES256");
}

#[test]
fn hs256_with_secret_verifies_and_bit_flip_fails() {
    let token = hs256_token("secret", "{\"alg\":\"HS256\",\"typ\":\"JWT\"}", "{\"sub\":\"x\"}");
    let parts: Vec<&str> = token.split('.').collect();
    let h = header("{\"alg\":\"HS256\",\"typ\":\"JWT\"}");
    let signing_input = format!("{}.{}", parts[0], parts[1]);
    let sig = URL_SAFE_NO_PAD.decode(parts[2]).unwrap();
    assert_eq!(verify(&h, &signing_input, &sig, "secret").unwrap(), true);
    // flipping any single bit of the signature makes it fail
    for byte in 0..sig.len() {
        for bit in 0..8 {
            let mut flipped = sig.clone();
            flipped[byte] ^= 1u8 << bit;
            assert_eq!(verify(&h, &signing_input, &flipped, "secret").unwrap(), false);
        }
    }
    assert_eq!(verify(&h, &signing_input, &sig, "wrong").unwrap(), false);
}

#[test]
fn hs256_accepts_empty_key_without_error() {
    let h = header("{\"alg\":\"HS256\"}");
    let r = verify(&h, "a.b", &[], "");
    assert_eq!(r.unwrap(), false);
}

#[test]
fn hs384_and_hs512_verify() {
    for (alg, hj) in [("HS384", "{\"alg\":\"HS384\"}"), ("HS512", "{\"alg\":\"HS512\"}")] {
        let h = header(hj);
        let input = "aa.bb";
        let tag: Vec<u8> = if alg == "HS384" {
            let mut m = hmac::Hmac::<sha2::Sha384>::new_from_slice(b"k").unwrap();
            m.update(input.as_bytes());
            m.finalize().into_bytes().to_vec()
        } else {
            let mut m = hmac::Hmac::<sha2::Sha512>::new_from_slice(b"k").unwrap();
            m.update(input.as_bytes());
            m.finalize().into_bytes().to_vec()
        };
        assert_eq!(verify(&h, input, &tag, "k").unwrap(), true);
        assert_eq!(verify(&h, input, &tag[..tag.len() - 1], "k").unwrap(), false);
    }
}

#[test]
fn rs256_bad_key_is_key_format_error() {
    let h = header("{\"alg\":\"RS256\"}");
    let r = verify(&h, "a.b", &[1, 2, 3], "not a pem key");
    assert!(matches!(r, Err(TokenError::KeyFormat)));
}

#[test]
fn rs256_round_trip_with_generated_key() {
    let mut rng = rand::thread_rng();
    let private_key = rsa::RsaPrivateKey::new(&mut rng, 2048).unwrap();
    let public_pem = private_key
        .to_public_key()
        .to_public_key_pem(rsa::pkcs8::LineEnding::LF)
        .unwrap();
    let signing_key = rsa::pkcs1v15::SigningKey::<sha2::Sha256>::new(private_key);
    let input = "head.body";
    let sig = signing_key.sign(input.as_bytes()).to_vec();
    let h = header("{\"alg\":\"RS256\"}");
    assert_eq!(verify(&h, input, &sig, &public_pem).unwrap(), true);
    assert_eq!(verify(&h, "other.body", &sig, &public_pem).unwrap(), false);
    let mut bad = sig.clone();
    bad[0] ^= 1;
    assert_eq!(verify(&h, input, &bad, &public_pem).unwrap(), false);
}

#[test]
fn verify_token_reports_the_outcome() {
    let token = hs256_token("secret", "{\"alg\":\"HS256\"}", "{\"iss\":\"me\"}");
    let rep = verify_token(&token, "secret", 0).unwrap();
    assert!(rep.text.contains("Signature is valid."));
    let rep2 = verify_token(&token, "wrong", 0).unwrap();
    assert!(rep2.text.contains("**Warning:** Signature is invalid."));
    let last = rep2.sections.last().unwrap();
    assert_eq!(last.label, "Verification");
}

#[test]
fn verify_token_propagates_parse_errors() {
    assert!(matches!(verify_token("x.y", "k", 0), Err(TokenError::Structure)));
}

#[test]
fn verify_token_reports_missing_and_unsupported_alg() {
    let no_alg = format!(
        "{}.{}.",
        URL_SAFE_NO_PAD.encode(b"{\"typ\":\"JWT\"}"),
        URL_SAFE_NO_PAD.encode(b"{}")
    );
    assert!(matches!(verify_token(&no_alg, "k", 0), Err(TokenError::MissingAlg)));
    let es256 = format!(
        "{}.{}.",
        URL_SAFE_NO_PAD.encode(b"{\"alg\":\"ES256\"}"),
        URL_SAFE_NO_PAD.encode(b"{}")
    );
    match verify_token(&es256, "k", 0) {
        Err(TokenError::UnsupportedAlg(a)) => assert_eq!(a, "ES256"),
        other => panic!("unexpected result {:?}", other.map(|r| r.text)),
    }
}

#[test]
fn verify_token_reports_bad_rsa_key() {
    let token = format!(
        "{}.{}.",
        URL_SAFE_NO_PAD.encode(b"{\"alg\":\"RS256\"}"),
        URL_SAFE_NO_PAD.encode(b"{}")
    );
    assert!(matches!(verify_token(&token, "not a pem key", 0), Err(TokenError::KeyFormat)));
}
