//! Token issuance: a signed JWT in compact form, bound to the key record that signs it.

use crate::base64url::{base64url, encode_base64url, is_base64url_text, lemma_base64url_shape};
use crate::clock::{is_clock_reading, now_unix};
use crate::json::{
    json_integer, json_string, push_json_integer, push_json_string, push_text, text_bytes,
};
use crate::keystore::{KeyRecord, KeyRecordView};
use vstd::prelude::*;

verus! {

/// The claims of an issued token.
pub struct Claims {
    /// The subject.
    pub sub: String,
    /// The instant of issuance, in seconds since the Unix epoch.
    pub iat: i64,
    /// The instant of expiry, in seconds since the Unix epoch.
    pub exp: i64,
}

/// The JSON text of a token header: the type `JWT`, the algorithm `RS256` and the key
/// identifier `kid`, in that order.
pub open spec fn header_json(kid: Seq<char>) -> Seq<u8> {
    text_bytes("{\"typ\":\"JWT\",\"alg\":\"RS256\",\"kid\":") + json_string(kid) + text_bytes("}")
}

/// The JSON text of the claims `sub`, `iat` and `exp`, in that order.
pub open spec fn claims_json(sub: Seq<char>, iat: i64, exp: i64) -> Seq<u8> {
    text_bytes("{\"sub\":") + json_string(sub) + text_bytes(",\"iat\":") + json_integer(
        iat as int,
    ) + text_bytes(",\"exp\":") + json_integer(exp as int) + text_bytes("}")
}

/// The claims of a token issued at `iat` under a key that expires at `exp`: the subject
/// is always `user`, and the token expires when its key does.
pub open spec fn claims_for(iat: i64, exp: i64) -> Seq<u8> {
    claims_json("user"@, iat, exp)
}

/// What is signed: the encoded header, a dot, the encoded claims.
pub open spec fn signing_input(kid: Seq<char>, iat: i64, exp: i64) -> Seq<char> {
    base64url(header_json(kid)) + "."@ + base64url(claims_for(iat, exp))
}

/// The compact form of a token: the signing input, a dot, the encoded signature.
pub open spec fn compact_token(message: Seq<char>, signature: Seq<char>) -> Seq<char> {
    message + "."@ + signature
}

/// Three runs of URL-safe base64 text joined by dots.
pub open spec fn compact_parts(header: Seq<char>, payload: Seq<char>, signature: Seq<char>) -> Seq<
    char,
> {
    header + "."@ + payload + "."@ + signature
}

/// Whether `token` has the compact form: an encoded header, an encoded payload and an
/// encoded signature, joined by two dots.
pub open spec fn is_compact_serialization(token: Seq<char>) -> bool {
    exists|header: Seq<char>, payload: Seq<char>, signature: Seq<char>|
        {
            &&& is_base64url_text(header)
            &&& is_base64url_text(payload)
            &&& is_base64url_text(signature)
            &&& token == #[trigger] compact_parts(header, payload, signature)
        }
}

/// The URL-safe base64 text of the RS256 signature (RSASSA-PKCS1-v1_5 with SHA-256) of
/// `message` under the private key `pkcs1_pem`, or `None` where the text is no such key or
/// the signer refuses it.
pub uninterp spec fn rs256_signature(message: Seq<char>, pkcs1_pem: Seq<char>) -> Option<Seq<char>>;

/// The token that a key with identifier `kid`, expiry `exp` and private key `pkcs1_pem`
/// issues at `iat`, if the key can sign.
pub open spec fn issued_token(kid: Seq<char>, iat: i64, exp: i64, pkcs1_pem: Seq<char>) -> Option<
    Seq<char>,
> {
    let message = signing_input(kid, iat, exp);
    match rs256_signature(message, pkcs1_pem) {
        Some(signature) => Some(compact_token(message, signature)),
        None => None,
    }
}

/// Whether `res` is what `rec` issues when the clock reads `now`: the token if the key can
/// sign, a failure if not.
pub open spec fn is_issued_by(res: Result<String, String>, rec: KeyRecordView, now: i64) -> bool {
    match res {
        Ok(token) => issued_token(rec.kid, now, rec.expires_at, rec.private_key) == Some(token@),
        Err(_) => issued_token(rec.kid, now, rec.expires_at, rec.private_key) is None,
    }
}

/// Why a token could not be signed.
#[derive(Debug)]
pub enum SigningError {
    /// The private key text was not accepted as an RSA key; the text says why.
    KeyRejected(String),
    /// The signer failed; the text says why.
    SigningFailed(String),
}

impl SigningError {
    /// The description shown for this failure.
    pub open spec fn description(&self) -> Seq<char> {
        match self {
            SigningError::KeyRejected(detail) => "EncodingKey creation failed: "@ + detail@,
            SigningError::SigningFailed(detail) => detail@,
        }
    }

    /// Renders the failure as one line of text.
    pub fn describe(&self) -> (text: String)
        ensures
            text@ == self.description(),
    {
        match self {
            SigningError::KeyRejected(detail) => {
                "EncodingKey creation failed: ".to_owned().concat(detail.as_str())
            },
            SigningError::SigningFailed(detail) => detail.clone(),
        }
    }
}

/// Signs `message` with RS256 under the private key `pkcs1_pem`.
///
/// Trusted: reads the key with `jsonwebtoken::EncodingKey::from_rsa_pem` and calls
/// `jsonwebtoken::crypto::sign` with `Algorithm::RS256`, which returns the signature in
/// URL-safe base64 without padding. PKCS#1 v1.5 signing uses no randomness, so the result
/// is a function of the message and the key text, and it gets the name
/// [`rs256_signature`]. An error of either call comes back with its own description.
#[verifier::external_body]
pub(crate) fn sign_rs256(message: &str, pkcs1_pem: &str) -> (res: Result<String, SigningError>)
    ensures
        match res {
            Ok(signature) => rs256_signature(message@, pkcs1_pem@) == Some(signature@)
                && is_base64url_text(signature@),
            Err(_) => rs256_signature(message@, pkcs1_pem@) is None,
        },
{
    let key = match jsonwebtoken::EncodingKey::from_rsa_pem(pkcs1_pem.as_bytes()) {
        Ok(key) => key,
        Err(e) => return Err(SigningError::KeyRejected(e.to_string())),
    };
    match jsonwebtoken::crypto::sign(message.as_bytes(), &key, jsonwebtoken::Algorithm::RS256) {
        Ok(signature) => Ok(signature),
        Err(e) => Err(SigningError::SigningFailed(e.to_string())),
    }
}

impl Claims {
    /// The claims of a token issued at `iat` under a key that expires at `exp`.
    pub fn issued(iat: i64, exp: i64) -> (claims: Claims)
        ensures
            claims.sub@ == "user"@,
            claims.iat == iat,
            claims.exp == exp,
    {
        Claims { sub: "user".to_owned(), iat, exp }
    }

    /// The claims as JSON text.
    pub fn to_json(&self) -> (json: Vec<u8>)
        ensures
            json@ == claims_json(self.sub@, self.iat, self.exp),
    {
        let mut json: Vec<u8> = Vec::new();
        push_text(&mut json, "{\"sub\":");
        push_json_string(&mut json, self.sub.as_str());
        push_text(&mut json, ",\"iat\":");
        push_json_integer(&mut json, self.iat);
        push_text(&mut json, ",\"exp\":");
        push_json_integer(&mut json, self.exp);
        push_text(&mut json, "}");
        assert(json@ =~= claims_json(self.sub@, self.iat, self.exp));
        json
    }
}

/// The JSON text of the header of a token signed by the key `kid`.
pub fn header_json_for(kid: &str) -> (json: Vec<u8>)
    ensures
        json@ == header_json(kid@),
{
    let mut json: Vec<u8> = Vec::new();
    push_text(&mut json, "{\"typ\":\"JWT\",\"alg\":\"RS256\",\"kid\":");
    push_json_string(&mut json, kid);
    push_text(&mut json, "}");
    assert(json@ =~= header_json(kid@));
    json
}

/// The text to sign for a token of the key `kid`, issued at `iat` and expiring at `exp`.
pub fn signing_input_for(kid: &str, iat: i64, exp: i64) -> (message: String)
    ensures
        message@ == signing_input(kid@, iat, exp),
{
    let header = header_json_for(kid);
    let claims = Claims::issued(iat, exp).to_json();
    let encoded_claims = encode_base64url(claims.as_slice());
    encode_base64url(header.as_slice()).concat(".").concat(encoded_claims.as_str())
}

/// Finishes a token from the signing input and what the signer returned: the compact
/// token where it signed, the failure's description where it did not.
pub fn finish_token(message: String, signed: Result<String, SigningError>) -> (res: Result<
    String,
    String,
>)
    ensures
        match signed {
            Ok(signature) => res matches Ok(token) && token@ == compact_token(
                message@,
                signature@,
            ),
            Err(e) => res matches Err(text) && text@ == e.description(),
        },
{
    match signed {
        Ok(signature) => Ok(message.concat(".").concat(signature.as_str())),
        Err(e) => Err(e.describe()),
    }
}

/// Issues a token signed by `rec` as if the clock read `now`: the claims carry `now` as
/// the time of issuance and the record's expiry as the token's own.
pub fn issue_jwt_at(rec: &KeyRecord, now: i64) -> (res: Result<String, String>)
    ensures
        is_issued_by(res, rec@, now),
        res matches Ok(token) ==> is_compact_serialization(token@),
{
    let message = signing_input_for(rec.kid.as_str(), now, rec.expires_at);
    let signed = sign_rs256(message.as_str(), rec.private_key.pkcs1_pem.as_str());
    proof {
        if signed is Ok {
            let header = base64url(header_json(rec.kid@));
            let payload = base64url(claims_for(now, rec.expires_at));
            let signature = signed->Ok_0@;
            lemma_base64url_shape(header_json(rec.kid@));
            lemma_base64url_shape(claims_for(now, rec.expires_at));
            assert(compact_token(message@, signature) == compact_parts(header, payload, signature));
        }
    }
    finish_token(message, signed)
}

/// Issues a token signed by `rec` at the current time.
pub fn issue_jwt_for_record(rec: &KeyRecord) -> (res: Result<String, String>)
    ensures
        exists|now: i64| is_clock_reading(now) && #[trigger] is_issued_by(res, rec@, now),
        res matches Ok(token) ==> is_compact_serialization(token@),
{
    let now = now_unix();
    let res = issue_jwt_at(rec, now);
    assert(is_clock_reading(now) && is_issued_by(res, rec@, now));
    res
}

} // verus!
