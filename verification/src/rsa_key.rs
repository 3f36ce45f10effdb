//! RSA key material as plain values: the private key as PKCS#1 PEM text, the public key as
//! the big-endian bytes of its modulus and exponent.

use rsa::pkcs1::{DecodeRsaPrivateKey, EncodeRsaPrivateKey};
use rsa::traits::PublicKeyParts;
use vstd::prelude::*;

verus! {

/// Whether `bytes` is the shortest big-endian form of an unsigned integer: at least one
/// byte, and no leading zero byte unless the single byte zero stands for zero itself.
pub open spec fn is_minimal_big_endian(bytes: Seq<u8>) -> bool {
    bytes.len() >= 1 && (bytes.len() == 1 || bytes[0] != 0)
}

/// The number of significant bits of a byte.
pub open spec fn byte_bit_length(b: u8) -> nat {
    if b >= 128 {
        8
    } else if b >= 64 {
        7
    } else if b >= 32 {
        6
    } else if b >= 16 {
        5
    } else if b >= 8 {
        4
    } else if b >= 4 {
        3
    } else if b >= 2 {
        2
    } else if b >= 1 {
        1
    } else {
        0
    }
}

/// The number of significant bits of the unsigned integer that `bytes` holds in its
/// shortest big-endian form.
pub open spec fn bit_length(bytes: Seq<u8>) -> nat
    recommends
        is_minimal_big_endian(bytes),
{
    (8 * (bytes.len() - 1) + byte_bit_length(bytes[0])) as nat
}

/// The public exponent of every generated key, 65537, in big-endian bytes.
pub open spec fn generated_exponent() -> Seq<u8> {
    seq![1u8, 0u8, 1u8]
}

/// The smallest modulus size that can be generated: a modulus has to exceed the exponent
/// 65537, which takes 17 bits.
pub const SMALLEST_KEY_BITS: usize = 17;

/// The public half of an RSA key pair.
#[derive(Debug)]
pub struct RsaPublicKey {
    /// The modulus, unsigned and big-endian.
    pub n: Vec<u8>,
    /// The public exponent, unsigned and big-endian.
    pub e: Vec<u8>,
}

/// The two numbers of an [`RsaPublicKey`], as byte sequences.
pub struct RsaPublicKeyView {
    pub n: Seq<u8>,
    pub e: Seq<u8>,
}

impl View for RsaPublicKey {
    type V = RsaPublicKeyView;

    open spec fn view(&self) -> RsaPublicKeyView {
        RsaPublicKeyView { n: self.n@, e: self.e@ }
    }
}

impl RsaPublicKeyView {
    /// Both numbers are held in their shortest big-endian form.
    pub open spec fn wf(self) -> bool {
        is_minimal_big_endian(self.n) && is_minimal_big_endian(self.e)
    }

    /// The size of the modulus in bits.
    pub open spec fn modulus_bits(self) -> nat {
        bit_length(self.n)
    }
}

/// The private half of an RSA key pair, as the signer takes it. It has no `Debug` form, so
/// that the key text does not end up in a log.
pub struct RsaPrivateKey {
    /// The key in PKCS#1 form, PEM-encoded.
    pub pkcs1_pem: String,
}

impl View for RsaPrivateKey {
    type V = Seq<char>;

    open spec fn view(&self) -> Seq<char> {
        self.pkcs1_pem@
    }
}

/// The public half of the RSA private key that the PKCS#1 PEM text `pkcs1_pem` encodes,
/// or `None` where the text encodes no such key.
pub uninterp spec fn rsa_public_half(pkcs1_pem: Seq<char>) -> Option<RsaPublicKeyView>;

/// Why no key pair could be generated.
#[derive(Debug)]
pub enum KeyGenError {
    /// The generator refused the size or failed; the text is its description.
    Generation(String),
    /// The generated key could not be written as PKCS#1 PEM; the text says why.
    PemConversion(String),
}

impl KeyGenError {
    /// The description shown for this failure.
    pub open spec fn description(&self) -> Seq<char> {
        match self {
            KeyGenError::Generation(detail) => "RSA key generation failed: "@ + detail@,
            KeyGenError::PemConversion(detail) => "PEM conversion failed: "@ + detail@,
        }
    }

    /// Renders the failure as one line of text.
    pub fn describe(&self) -> (text: String)
        ensures
            text@ == self.description(),
    {
        match self {
            KeyGenError::Generation(detail) => {
                "RSA key generation failed: ".to_owned().concat(detail.as_str())
            },
            KeyGenError::PemConversion(detail) => {
                "PEM conversion failed: ".to_owned().concat(detail.as_str())
            },
        }
    }
}

/// Generates an RSA private key with a modulus of `key_bits` bits.
///
/// Trusted: calls `rsa::RsaPrivateKey::new` with the operating system's random source and
/// converts the key to text with `to_pkcs1_pem` (line feeds). The key is random, so the
/// contract holds of every outcome. It says of the public half that the text encodes:
/// there is one, since the text is the encoding of a key that the generator has
/// validated; its modulus has exactly `key_bits` bits, since the generator returns no
/// other; and its exponent is 65537, the one the generator always uses. It also says
/// that a size under 17 bits is always refused by the generator: either it finds too few
/// primes of that size, or its validation rejects a modulus that does not exceed the
/// exponent. An error of either outside call comes back with its own description. The
/// time and memory that the call takes grow with `key_bits`.
#[verifier::external_body]
pub(crate) fn generate_private_key(key_bits: usize) -> (res: Result<RsaPrivateKey, KeyGenError>)
    ensures
        res matches Ok(key) ==> {
            &&& rsa_public_half(key@) matches Some(public)
            &&& public.modulus_bits() == key_bits
            &&& public.e == generated_exponent()
        },
        key_bits < SMALLEST_KEY_BITS ==> res matches Err(KeyGenError::Generation(_)),
{
    let key = match rsa::RsaPrivateKey::new(&mut rsa::rand_core::OsRng, key_bits) {
        Ok(key) => key,
        Err(e) => return Err(KeyGenError::Generation(e.to_string())),
    };
    match key.to_pkcs1_pem(rsa::pkcs1::LineEnding::LF) {
        Ok(pem) => Ok(RsaPrivateKey { pkcs1_pem: pem.to_string() }),
        Err(e) => Err(KeyGenError::PemConversion(e.to_string())),
    }
}

/// Derives the public half of the private key that `pkcs1_pem` encodes.
///
/// Trusted: reads the key with `rsa::RsaPrivateKey::from_pkcs1_pem`, takes its public half
/// with `rsa::RsaPublicKey::from` and converts the modulus and exponent with
/// `to_bytes_be`. The result depends on the text alone and gets the name
/// [`rsa_public_half`]; `to_bytes_be` gives the shortest big-endian form.
#[verifier::external_body]
fn derive_public_key(pkcs1_pem: &str) -> (res: Option<RsaPublicKey>)
    ensures
        match res {
            Some(public) => rsa_public_half(pkcs1_pem@) == Some(public@) && public@.wf(),
            None => rsa_public_half(pkcs1_pem@) is None,
        },
{
    match rsa::RsaPrivateKey::from_pkcs1_pem(pkcs1_pem) {
        Ok(key) => {
            let public = rsa::RsaPublicKey::from(&key);
            Some(RsaPublicKey { n: public.n().to_bytes_be(), e: public.e().to_bytes_be() })
        },
        Err(_) => None,
    }
}

fn byte_bit_length_of(b: u8) -> (bits: u8)
    ensures
        bits == byte_bit_length(b),
{
    if b >= 128 {
        8
    } else if b >= 64 {
        7
    } else if b >= 32 {
        6
    } else if b >= 16 {
        5
    } else if b >= 8 {
        4
    } else if b >= 4 {
        3
    } else if b >= 2 {
        2
    } else if b >= 1 {
        1
    } else {
        0
    }
}

/// Whether two byte strings hold the same bytes.
pub fn same_bytes(a: &Vec<u8>, b: &Vec<u8>) -> (same: bool)
    ensures
        same == (a@ == b@),
{
    if a.len() != b.len() {
        return false;
    }
    let mut i: usize = 0;
    while i < a.len()
        invariant
            i <= a.len(),
            a.len() == b.len(),
            forall|j: int| 0 <= j < i ==> a@[j] == b@[j],
        decreases a.len() - i,
    {
        if a[i] != b[i] {
            return false;
        }
        i += 1;
    }
    assert(a@ =~= b@);
    true
}

impl RsaPublicKey {
    /// Whether both numbers are held in their shortest big-endian form.
    pub fn is_well_formed(&self) -> (ok: bool)
        ensures
            ok == self@.wf(),
    {
        self.n.len() >= 1 && (self.n.len() == 1 || self.n[0] != 0) && self.e.len() >= 1 && (
        self.e.len() == 1 || self.e[0] != 0)
    }

    /// Whether the exponent is 65537, the one that every generated key has.
    pub fn has_generated_exponent(&self) -> (ok: bool)
        ensures
            ok == (self@.e == generated_exponent()),
    {
        let ok = self.e.len() == 3 && self.e[0] == 1 && self.e[1] == 0 && self.e[2] == 1;
        proof {
            if ok {
                assert(self@.e =~= generated_exponent());
            }
        }
        ok
    }

    /// Whether the moduli of two well-formed keys have the same size in bits.
    pub(crate) fn same_modulus_bits(&self, other: &RsaPublicKey) -> (same: bool)
        requires
            self@.wf(),
            other@.wf(),
        ensures
            same == (self@.modulus_bits() == other@.modulus_bits()),
    {
        self.n.len() == other.n.len() && byte_bit_length_of(self.n[0]) == byte_bit_length_of(
            other.n[0],
        )
    }
}

impl RsaPrivateKey {
    /// The public half of this key, if the text is a key at all.
    pub fn public_key(&self) -> (res: Option<RsaPublicKey>)
        ensures
            match res {
                Some(public) => rsa_public_half(self@) == Some(public@) && public@.wf(),
                None => rsa_public_half(self@) is None,
            },
    {
        derive_public_key(self.pkcs1_pem.as_str())
    }
}

} // verus!
