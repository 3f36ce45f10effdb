//! JSON Web Keys: the public form in which signing keys are published.

use crate::base64url::{base64url, encode_base64url, is_base64url_text, lemma_base64url_shape};
use crate::rsa_key::{generated_exponent, RsaPublicKey, RsaPublicKeyView};
use vstd::prelude::*;

verus! {

/// One published RSA signing key.
#[derive(Debug, Clone)]
pub struct Jwk {
    pub kty: String,
    pub kid: String,
    pub use_: String,
    pub alg: String,
    pub n: String,
    pub e: String,
}

/// The text of each field of a [`Jwk`].
pub struct JwkView {
    pub kty: Seq<char>,
    pub kid: Seq<char>,
    pub use_: Seq<char>,
    pub alg: Seq<char>,
    pub n: Seq<char>,
    pub e: Seq<char>,
}

impl View for Jwk {
    type V = JwkView;

    open spec fn view(&self) -> JwkView {
        JwkView {
            kty: self.kty@,
            kid: self.kid@,
            use_: self.use_@,
            alg: self.alg@,
            n: self.n@,
            e: self.e@,
        }
    }
}

/// A set of published keys, in the order in which the store lists them.
#[derive(Debug, Clone)]
pub struct Jwks {
    pub keys: Vec<Jwk>,
}

impl View for Jwks {
    type V = Seq<JwkView>;

    open spec fn view(&self) -> Seq<JwkView> {
        self.keys@.map_values(|k: Jwk| k@)
    }
}

/// The JWK that publishes `key` under the identifier `kid`: the key type, use and
/// algorithm are fixed, the modulus and exponent are the key's bytes in URL-safe base64.
pub open spec fn jwk_of(key: RsaPublicKeyView, kid: Seq<char>) -> JwkView {
    JwkView {
        kty: "RSA"@,
        kid: kid,
        use_: "sig"@,
        alg: "RS256"@,
        n: base64url(key.n),
        e: base64url(key.e),
    }
}

/// Whether `jwk` describes an RS256 signing key whose modulus and exponent are non-empty
/// URL-safe base64 text.
pub open spec fn is_rs256_signing_jwk(jwk: JwkView) -> bool {
    &&& jwk.kty == "RSA"@
    &&& jwk.use_ == "sig"@
    &&& jwk.alg == "RS256"@
    &&& jwk.n.len() > 0
    &&& is_base64url_text(jwk.n)
    &&& jwk.e.len() > 0
    &&& is_base64url_text(jwk.e)
}

/// Converts an RSA public key into its JWK.
pub fn jwk_from_rsa_public(pubkey: &RsaPublicKey, kid: &str) -> (jwk: Jwk)
    ensures
        jwk@ == jwk_of(pubkey@, kid@),
{
    let n = encode_base64url(pubkey.n.as_slice());
    let e = encode_base64url(pubkey.e.as_slice());

    Jwk {
        kty: "RSA".to_owned(),
        kid: kid.to_owned(),
        use_: "sig".to_owned(),
        alg: "RS256".to_owned(),
        n,
        e,
    }
}

/// The JWK of a well-formed public key has the fixed key type, use and algorithm, and
/// carries a non-empty modulus and exponent in URL-safe base64, whatever the identifier.
pub proof fn jwk_of_valid_key_is_signing_jwk(key: RsaPublicKeyView, kid: Seq<char>)
    requires
        key.wf(),
    ensures
        is_rs256_signing_jwk(jwk_of(key, kid)),
        jwk_of(key, kid).kid == kid,
{
    lemma_base64url_shape(key.n);
    lemma_base64url_shape(key.e);
}

/// A key with the exponent 65537, as every generated key has it, is published with the
/// exponent `AQAB`.
pub proof fn jwk_of_generated_key_has_exponent_aqab(key: RsaPublicKeyView, kid: Seq<char>)
    requires
        key.e == generated_exponent(),
    ensures
        jwk_of(key, kid).e == "AQAB"@,
{
    reveal_strlit("ABCDEFGHIJKLMNOPQRSTUVWXYZabcdefghijklmnopqrstuvwxyz0123456789-_");
    reveal_strlit("AQAB");
    assert(key.e.skip(3) =~= Seq::empty());
    reveal_with_fuel(base64url, 2);
    assert(base64url(key.e) =~= "AQAB"@);
}

} // verus!
