use base64::engine::general_purpose::URL_SAFE_NO_PAD;
use base64::Engine;
use jsonwebtoken::{decode, decode_header, Algorithm, DecodingKey, EncodingKey, Header, Validation};
use jwks_server_rust::jwt::{
    finish_token, header_json_for, issue_jwt_at, issue_jwt_for_record, signing_input_for, Claims,
    SigningError,
};
use jwks_server_rust::jwk::jwk_from_rsa_public;
use jwks_server_rust::keystore::{KeyRecord, KeyStore};
use jwks_server_rust::rsa_key::{RsaPrivateKey, RsaPublicKey};
use rsa::pkcs1::{EncodeRsaPrivateKey, LineEnding};
use rsa::BigUint;
use serde::ser::SerializeStruct;
use serde_json::Value;

const SIGNING_KEY_BITS: usize = 2048;

struct SerdeClaims {
    sub: String,
    iat: i64,
    exp: i64,
}

impl serde::Serialize for SerdeClaims {
    fn serialize<S: serde::Serializer>(&self, serializer: S) -> Result<S::Ok, S::Error> {
        let mut claims = serializer.serialize_struct("Claims", 3)?;
        claims.serialize_field("sub", &self.sub)?;
        claims.serialize_field("iat", &self.iat)?;
        claims.serialize_field("exp", &self.exp)?;
        claims.end()
    }
}

fn now() -> i64 {
    time::OffsetDateTime::now_utc().unix_timestamp()
}

fn segments(token: &str) -> Vec<&str> {
    token.split('.').collect()
}

fn decoded_json(segment: &str) -> Value {
    let bytes = URL_SAFE_NO_PAD.decode(segment).expect("base64url segment");
    serde_json::from_slice(&bytes).expect("json segment")
}

fn concat_parts(header: &str, payload: &str) -> String {
    format!("{header}.{payload}")
}

/// A record with a 2048-bit key built from two fixed primes, `3 * 2^1022 + 2^600 + 619`
/// and `3 * 2^1022 + 1037`: the signer takes no smaller key, and generating one of this
/// size takes seconds.
fn signing_record(kid: &str, expires_at: i64) -> KeyRecord {
    let base = BigUint::from(3u8) << 1022usize;
    let p = &base + (BigUint::from(1u8) << 600usize) + BigUint::from(619u32);
    let q = &base + BigUint::from(1037u32);
    let key =
        rsa::RsaPrivateKey::from_p_q(p, q, BigUint::from(65537u32)).expect("key from primes");
    let pem = key.to_pkcs1_pem(LineEnding::LF).expect("pem").to_string();

    KeyRecord::from_private_key(kid.to_string(), expires_at, RsaPrivateKey { pkcs1_pem: pem })
        .expect("record")
}

fn is_base64url_text(text: &str) -> bool {
    text.chars().all(|c| c.is_ascii_alphanumeric() || c == '-' || c == '_')
}

#[test]
fn header_names_type_algorithm_and_kid() {
    assert_eq!(
        header_json_for("abc"),
        br#"{"typ":"JWT","alg":"RS256","kid":"abc"}"#.to_vec()
    );
    assert_eq!(header_json_for(""), br#"{"typ":"JWT","alg":"RS256","kid":""}"#.to_vec());
}

#[test]
fn header_is_what_the_jwt_crate_serialises() {
    for kid in ["abc", "3f2b9c1e-8d4a-4c6b-9e0f-1a2b3c4d5e6f", "a\"b\\c", "tab\there", "é/ü"] {
        let mut header = Header::new(Algorithm::RS256);
        header.kid = Some(kid.to_string());
        assert_eq!(header_json_for(kid), serde_json::to_vec(&header).expect("header json"));
    }
}

#[test]
fn header_escapes_the_kid_as_a_json_string() {
    let kid = "q\"b\\/\u{8}\u{c}\n\r\t\u{0}\u{1}\u{1f}\u{7f} é\u{2028}😀";
    let expected = format!(
        "{{\"typ\":\"JWT\",\"alg\":\"RS256\",\"kid\":{}}}",
        serde_json::to_string(kid).expect("json string")
    );

    assert_eq!(header_json_for(kid), expected.into_bytes());
    assert_eq!(
        header_json_for("\"\\\u{8}\u{c}\n\r\t\u{1}\u{1f} "),
        b"{\"typ\":\"JWT\",\"alg\":\"RS256\",\"kid\":\"\\\"\\\\\\b\\f\\n\\r\\t\\u0001\\u001f \"}"
            .to_vec()
    );
}

#[test]
fn header_escapes_every_control_character() {
    for code in 0u8..0x20 {
        let kid = (code as char).to_string();
        let expected = format!(
            "{{\"typ\":\"JWT\",\"alg\":\"RS256\",\"kid\":{}}}",
            serde_json::to_string(&kid).expect("json string")
        );
        assert_eq!(header_json_for(&kid), expected.into_bytes(), "code {code}");
    }
}

#[test]
fn claims_carry_subject_issue_time_and_expiry() {
    let claims = Claims::issued(1_700_000_000, 1_700_003_600);

    assert_eq!(claims.sub, "user");
    assert_eq!(claims.iat, 1_700_000_000);
    assert_eq!(claims.exp, 1_700_003_600);
    assert_eq!(
        claims.to_json(),
        br#"{"sub":"user","iat":1700000000,"exp":1700003600}"#.to_vec()
    );
}

#[test]
fn claims_numbers_are_written_in_decimal() {
    let json = |iat: i64, exp: i64| String::from_utf8(Claims::issued(iat, exp).to_json()).unwrap();

    assert_eq!(json(0, 9), r#"{"sub":"user","iat":0,"exp":9}"#);
    assert_eq!(json(10, -1), r#"{"sub":"user","iat":10,"exp":-1}"#);
    assert_eq!(json(-120, 1_000_000), r#"{"sub":"user","iat":-120,"exp":1000000}"#);
    assert_eq!(
        json(i64::MIN, i64::MAX),
        r#"{"sub":"user","iat":-9223372036854775808,"exp":9223372036854775807}"#
    );
}

#[test]
fn claims_are_what_serde_json_writes() {
    for (sub, iat, exp) in [
        ("user", 1_700_000_000i64, 1_700_003_600i64),
        ("a \"quoted\" name", -5, 5),
        ("", i64::MIN, i64::MAX),
        ("line\nbreak", 99, 100),
    ] {
        let claims = Claims { sub: sub.to_string(), iat, exp };
        let by_serde = SerdeClaims { sub: sub.to_string(), iat, exp };
        assert_eq!(claims.to_json(), serde_json::to_vec(&by_serde).expect("claims json"));
    }
}

#[test]
fn signing_input_is_encoded_header_dot_encoded_claims() {
    let message = signing_input_for("kid-7", 100, 200);
    let parts = segments(&message);

    assert_eq!(parts.len(), 2);
    assert_eq!(parts[0], URL_SAFE_NO_PAD.encode(br#"{"typ":"JWT","alg":"RS256","kid":"kid-7"}"#));
    assert_eq!(parts[1], URL_SAFE_NO_PAD.encode(br#"{"sub":"user","iat":100,"exp":200}"#));
    assert_eq!(
        message,
        concat_parts(
            "eyJ0eXAiOiJKV1QiLCJhbGciOiJSUzI1NiIsImtpZCI6ImtpZC03In0",
            "eyJzdWIiOiJ1c2VyIiwiaWF0IjoxMDAsImV4cCI6MjAwfQ"
        )
    );
}

#[test]
fn finished_token_appends_the_signature() {
    let token = finish_token("head.claims".to_string(), Ok("c2ln".to_string()));

    assert_eq!(token, Ok("head.claims.c2ln".to_string()));
}

#[test]
fn finished_token_reports_the_failure() {
    let rejected = finish_token(
        "head.claims".to_string(),
        Err(SigningError::KeyRejected("InvalidKeyFormat".to_string())),
    );
    let failed = finish_token(
        "head.claims".to_string(),
        Err(SigningError::SigningFailed("RsaFailedSigning".to_string())),
    );

    assert_eq!(rejected, Err("EncodingKey creation failed: InvalidKeyFormat".to_string()));
    assert_eq!(failed, Err("RsaFailedSigning".to_string()));
}

#[test]
fn signing_failures_are_described() {
    assert_eq!(
        SigningError::KeyRejected("bad".to_string()).describe(),
        "EncodingKey creation failed: bad"
    );
    assert_eq!(SigningError::SigningFailed("worse".to_string()).describe(), "worse");
}

#[test]
fn issued_token_is_what_the_jwt_crate_encodes() {
    let rec = signing_record("0b6d7c1e-52f4-4f0a-9d3e-7a1c2b3d4e5f", 2_000_000_000);
    let token = issue_jwt_at(&rec, 1_900_000_000).expect("token");

    let mut header = Header::new(Algorithm::RS256);
    header.kid = Some(rec.kid.clone());
    let claims =
        SerdeClaims { sub: "user".to_string(), iat: 1_900_000_000, exp: 2_000_000_000 };
    let key =
        EncodingKey::from_rsa_pem(rec.private_key.pkcs1_pem.as_bytes()).expect("encoding key");
    let expected = jsonwebtoken::encode(&header, &claims, &key).expect("encoded token");

    assert_eq!(token, expected);
}

#[test]
fn issued_token_has_three_url_safe_parts() {
    let rec = signing_record("0b6d7c1e-52f4-4f0a-9d3e-7a1c2b3d4e5f", 2_000_000_000);
    let token = issue_jwt_at(&rec, 1_900_000_000).expect("token");
    let parts = segments(&token);

    assert_eq!(parts.len(), 3);
    assert!(parts.iter().all(|p| !p.is_empty() && is_base64url_text(p)));
    assert_eq!(
        concat_parts(parts[0], parts[1]),
        signing_input_for(&rec.kid, 1_900_000_000, 2_000_000_000)
    );
    let signature = URL_SAFE_NO_PAD.decode(parts[2]).expect("signature");
    assert_eq!(signature.len(), SIGNING_KEY_BITS / 8);

    let header = decoded_json(parts[0]);
    let payload = decoded_json(parts[1]);
    assert_eq!(header["typ"], "JWT");
    assert_eq!(header["alg"], "RS256");
    assert_eq!(header["kid"], rec.kid.as_str());
    assert_eq!(payload["sub"], "user");
    assert_eq!(payload["iat"], 1_900_000_000i64);
    assert_eq!(payload["exp"], 2_000_000_000i64);
}

#[test]
fn issuing_twice_at_the_same_instant_gives_the_same_token() {
    let rec = signing_record("0b6d7c1e-52f4-4f0a-9d3e-7a1c2b3d4e5f", 2_000_000_000);

    let first = issue_jwt_at(&rec, 1_900_000_000).expect("token");
    let second = issue_jwt_at(&rec, 1_900_000_000).expect("token");
    let later = issue_jwt_at(&rec, 1_900_000_001).expect("token");

    assert_eq!(first, second);
    assert_ne!(first, later);
}

#[test]
fn signing_key_has_the_size_the_signer_asks_for() {
    let rec = signing_record("kid", 0);

    assert_eq!(rec.public_key.n.len(), SIGNING_KEY_BITS / 8);
    assert!(rec.public_key.n[0] >= 0x80);
    assert_eq!(rec.public_key.e, vec![1, 0, 1]);
}

#[test]
fn token_of_a_valid_record_verifies_against_its_published_key() {
    let start = now();
    let rec = signing_record("3f2b9c1e-8d4a-4c6b-9e0f-1a2b3c4d5e6f", start + 3600);
    let before = now();
    let token = issue_jwt_for_record(&rec).expect("token");
    let after = now();

    let header = decode_header(&token).expect("header");
    assert_eq!(header.alg, Algorithm::RS256);
    assert_eq!(header.typ.as_deref(), Some("JWT"));
    let kid = header.kid.expect("kid should exist");
    assert!(!kid.is_empty());
    assert_eq!(kid, rec.kid);

    let published = [jwk_from_rsa_public(&rec.public_key, &rec.kid)];
    let jwk = published.iter().find(|k| k.kid == kid).expect("kid in jwks");
    let decoding_key = DecodingKey::from_rsa_components(&jwk.n, &jwk.e).expect("decoding key");
    let validation = Validation::new(Algorithm::RS256);

    let data = decode::<Value>(&token, &decoding_key, &validation).expect("valid jwt");
    let exp = data.claims["exp"].as_i64().expect("exp claim");
    let iat = data.claims["iat"].as_i64().expect("iat claim");
    assert!(exp > now(), "exp should be in the future");
    assert_eq!(exp, rec.expires_at);
    assert!(before <= iat && iat <= after);
    assert_eq!(data.claims["sub"].as_str().unwrap(), "user");
}

#[test]
fn token_of_an_expired_record_is_expired() {
    let rec = signing_record("9a8b7c6d-5e4f-4a3b-8c2d-1e0f9a8b7c6d", now() - 3600);
    let token = issue_jwt_for_record(&rec).expect("token");

    let kid = decode_header(&token).expect("header").kid.expect("kid should exist");
    assert!(!kid.is_empty());
    assert_eq!(kid, rec.kid);

    let payload = decoded_json(segments(&token)[1]);
    let exp = payload["exp"].as_i64().expect("exp claim");
    assert!(exp < now(), "expired token exp should be in the past");
    assert_eq!(exp, rec.expires_at);

    let jwk = jwk_from_rsa_public(&rec.public_key, &rec.kid);
    let own_key = DecodingKey::from_rsa_components(&jwk.n, &jwk.e).expect("decoding key");
    let strict = Validation::new(Algorithm::RS256);
    let err = decode::<Value>(&token, &own_key, &strict).expect_err("expired token");
    assert!(matches!(err.kind(), jsonwebtoken::errors::ErrorKind::ExpiredSignature));

    let mut lenient = Validation::new(Algorithm::RS256);
    lenient.validate_exp = false;
    assert!(decode::<Value>(&token, &own_key, &lenient).is_ok());
}

#[test]
fn token_does_not_verify_against_another_key() {
    let rec = signing_record("kid", now() + 3600);
    let token = issue_jwt_for_record(&rec).expect("token");
    let other = KeyStore::generate_key_record(0, 1024).expect("key generation");
    let jwk = jwk_from_rsa_public(&other.public_key, &rec.kid);
    let other_key = DecodingKey::from_rsa_components(&jwk.n, &jwk.e).expect("decoding key");
    let mut lenient = Validation::new(Algorithm::RS256);
    lenient.validate_exp = false;

    let err = decode::<Value>(&token, &other_key, &lenient).expect_err("foreign signature");
    assert!(matches!(err.kind(), jsonwebtoken::errors::ErrorKind::InvalidSignature));
}

#[test]
fn token_of_the_expired_slot_names_an_unpublished_key() {
    let ks = KeyStore::new_with_bits(512).expect("key generation");
    let message = signing_input_for(ks.expired_kid(), now(), ks.expired_key().expires_at);
    let header = decoded_json(segments(&message)[0]);
    let payload = decoded_json(segments(&message)[1]);

    let kid = header["kid"].as_str().expect("kid should exist");
    assert!(!kid.is_empty());
    assert_eq!(kid, ks.expired_kid());
    let jwks = ks.jwks_unexpired();
    assert!(jwks.keys.iter().all(|k| k.kid != kid), "expired kid should not be in jwks");
    assert!(payload["exp"].as_i64().expect("exp claim") < now());
}

#[test]
fn text_that_is_no_key_cannot_sign() {
    let rec = KeyRecord {
        kid: "kid".to_string(),
        expires_at: 10,
        private_key: RsaPrivateKey { pkcs1_pem: "not a key".to_string() },
        public_key: RsaPublicKey { n: vec![1], e: vec![1] },
    };

    let err = issue_jwt_at(&rec, 5).expect_err("no key");
    assert_eq!(err, "EncodingKey creation failed: InvalidKeyFormat");
    assert!(issue_jwt_for_record(&rec).is_err());
}

#[test]
fn a_key_too_small_for_the_signer_cannot_sign() {
    for bits in [512usize, 1024] {
        let rec = KeyStore::generate_key_record(10, bits).expect("key generation");

        let err = issue_jwt_at(&rec, 5).expect_err("small key");
        assert_eq!(err, "RSA key invalid: TooSmall");
    }
}
