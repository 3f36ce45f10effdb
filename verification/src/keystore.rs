//! The key store: two RSA key records, one valid for the coming hour and one that expired
//! an hour before the store was built.

use crate::clock::{is_clock_reading, now_unix};
use crate::jwk::{
    is_rs256_signing_jwk, jwk_from_rsa_public, jwk_of, jwk_of_generated_key_has_exponent_aqab,
    jwk_of_valid_key_is_signing_jwk, Jwk, JwkView, Jwks,
};
use crate::rsa_key::{
    generate_private_key, generated_exponent, rsa_public_half, same_bytes, KeyGenError,
    RsaPrivateKey, RsaPublicKey, RsaPublicKeyView, SMALLEST_KEY_BITS,
};
use vstd::prelude::*;
use vstd::string::is_ascii_spec_bytes;
use vstd::utf8::is_ascii_chars;

verus! {

/// How far from the moment of construction the two expiry instants lie, in seconds.
pub const KEY_LIFETIME_SECONDS: i64 = 3600;

/// The modulus size of the keys of a store built with [`KeyStore::new`].
pub const DEFAULT_KEY_BITS: usize = 2048;

/// Whether `c` is a digit or one of the letters `a` to `f`.
pub open spec fn is_lower_hex_char(c: char) -> bool {
    ('0' <= c && c <= '9') || ('a' <= c && c <= 'f')
}

/// Whether `text` has the shape `xxxxxxxx-xxxx-xxxx-xxxx-xxxxxxxxxxxx` with lowercase
/// hexadecimal digits.
pub open spec fn is_hyphenated_uuid(text: Seq<char>) -> bool {
    &&& text.len() == 36
    &&& forall|i: int|
        0 <= i < 36 ==> if i == 8 || i == 13 || i == 18 || i == 23 {
            #[trigger] text[i] == '-'
        } else {
            is_lower_hex_char(text[i])
        }
}

/// Whether `text` has the shape of a hyphenated lowercase UUID.
pub fn is_uuid_text(text: &str) -> (ok: bool)
    ensures
        ok == is_hyphenated_uuid(text@),
{
    if !text.is_ascii() {
        proof {
            if is_hyphenated_uuid(text@) {
                assert forall|i: int| 0 <= i < text@.len() implies '\0' <= #[trigger] text@[i]
                    <= '\u{7f}' by {
                    if i == 8 || i == 13 || i == 18 || i == 23 {
                        assert(text@[i] == '-');
                    } else {
                        assert(is_lower_hex_char(text@[i]));
                    }
                }
            }
        }
        return false;
    }
    let bytes = text.as_bytes();
    proof {
        is_ascii_spec_bytes(text);
    }
    if bytes.len() != 36 {
        return false;
    }
    let mut i: usize = 0;
    while i < 36
        invariant
            i <= 36,
            bytes@.len() == 36,
            text@.len() == 36,
            is_ascii_chars(text@),
            forall|j: int| 0 <= j < 36 ==> bytes@[j] == #[trigger] text@[j] as u8,
            forall|j: int|
                0 <= j < i ==> if j == 8 || j == 13 || j == 18 || j == 23 {
                    #[trigger] text@[j] == '-'
                } else {
                    is_lower_hex_char(text@[j])
                },
        decreases 36 - i,
    {
        let b = bytes[i];
        let ok = if i == 8 || i == 13 || i == 18 || i == 23 {
            b == '-' as u8
        } else {
            ('0' as u8 <= b && b <= '9' as u8) || ('a' as u8 <= b && b <= 'f' as u8)
        };
        proof {
            let c = text@[i as int];
            assert('\0' <= c <= '\u{7f}');
            assert(b == c as u8);
        }
        if !ok {
            return false;
        }
        i += 1;
    }
    true
}

/// A fresh random key identifier.
///
/// Trusted: calls `uuid::Uuid::new_v4` and renders the result with its `Display` impl,
/// which writes the hyphenated lowercase form. The value is random, so only that shape is
/// claimed; two calls may or may not differ.
#[verifier::external_body]
fn random_kid() -> (kid: String)
    ensures
        is_hyphenated_uuid(kid@),
{
    uuid::Uuid::new_v4().to_string()
}

/// A key pair with its identifier and the instant at which it expires.
pub struct KeyRecord {
    pub kid: String,
    /// Seconds since the Unix epoch.
    pub expires_at: i64,
    pub private_key: RsaPrivateKey,
    pub public_key: RsaPublicKey,
}

/// What a [`KeyRecord`] holds.
pub struct KeyRecordView {
    pub kid: Seq<char>,
    pub expires_at: i64,
    /// The private key as PKCS#1 PEM text.
    pub private_key: Seq<char>,
    pub public_key: RsaPublicKeyView,
}

impl View for KeyRecord {
    type V = KeyRecordView;

    open spec fn view(&self) -> KeyRecordView {
        KeyRecordView {
            kid: self.kid@,
            expires_at: self.expires_at,
            private_key: self.private_key@,
            public_key: self.public_key@,
        }
    }
}

impl KeyRecordView {
    /// A record is expired from its expiry instant on.
    pub open spec fn expired_at(self, now: i64) -> bool {
        self.expires_at <= now
    }

    /// The JWK that publishes this record's public key.
    pub open spec fn jwk(self) -> JwkView {
        jwk_of(self.public_key, self.kid)
    }

    /// What every generated record satisfies: the identifier is a UUID, and the public
    /// key is the public half of the private key, well formed and with the exponent that
    /// the generator uses.
    pub open spec fn wf(self) -> bool {
        &&& is_hyphenated_uuid(self.kid)
        &&& rsa_public_half(self.private_key) == Some(self.public_key)
        &&& self.public_key.wf()
        &&& self.public_key.e == generated_exponent()
    }
}

/// The record that holds the private key `private_key`, and with it the public half of
/// that key, under the identifier `kid` and with the expiry `expires_at`; `None` where
/// the text is no private key.
pub open spec fn record_of(kid: Seq<char>, expires_at: i64, private_key: Seq<char>) -> Option<
    KeyRecordView,
> {
    match rsa_public_half(private_key) {
        Some(public_key) => Some(KeyRecordView { kid, expires_at, private_key, public_key }),
        None => None,
    }
}

impl KeyRecord {
    /// Makes the record of a private key: derives the public half and puts both under
    /// the identifier `kid` with the expiry `expires_at`. Text that is no private key
    /// gives no record.
    pub fn from_private_key(kid: String, expires_at: i64, private_key: RsaPrivateKey) -> (res:
        Option<KeyRecord>)
        ensures
            match res {
                Some(rec) => record_of(kid@, expires_at, private_key@) == Some(rec@),
                None => record_of(kid@, expires_at, private_key@) is None,
            },
            res matches Some(rec) ==> rec@.public_key.wf(),
    {
        match private_key.public_key() {
            Some(public_key) => Some(KeyRecord { kid, expires_at, private_key, public_key }),
            None => None,
        }
    }

    /// Whether the record is well formed: the identifier is a UUID and the public key is
    /// the public half of the private key, in shortest form and with the exponent 65537.
    pub fn is_well_formed(&self) -> (ok: bool)
        ensures
            ok == self@.wf(),
    {
        if !is_uuid_text(self.kid.as_str()) {
            return false;
        }
        match self.private_key.public_key() {
            Some(derived) => {
                let ok = same_bytes(&derived.n, &self.public_key.n) && same_bytes(
                    &derived.e,
                    &self.public_key.e,
                ) && self.public_key.has_generated_exponent();
                proof {
                    if derived@.n == self@.public_key.n && derived@.e == self@.public_key.e {
                        assert(derived@ == self@.public_key);
                    }
                }
                ok
            },
            None => false,
        }
    }

    /// Whether the record is expired when the clock reads `now`.
    pub fn is_expired_at(&self, now: i64) -> (expired: bool)
        ensures
            expired == self@.expired_at(now),
    {
        self.expires_at <= now
    }

    /// Whether the record is still valid when the clock reads `now`.
    pub fn is_active_at(&self, now: i64) -> (active: bool)
        ensures
            active == !self@.expired_at(now),
    {
        !self.is_expired_at(now)
    }

    /// Whether the record is expired at the moment of the call.
    pub fn is_expired(&self) -> (expired: bool)
        ensures
            exists|now: i64| is_clock_reading(now) && expired == #[trigger] self@.expired_at(now),
    {
        let now = now_unix();
        let expired = self.is_expired_at(now);
        assert(is_clock_reading(now) && expired == self@.expired_at(now));
        expired
    }

    /// Whether the record is still valid at the moment of the call.
    pub fn is_active(&self) -> (active: bool)
        ensures
            exists|now: i64| is_clock_reading(now) && active == !#[trigger] self@.expired_at(now),
    {
        !self.is_expired()
    }
}

/// What the records that `refs` point to hold.
pub open spec fn views_of(refs: Seq<&KeyRecord>) -> Seq<KeyRecordView> {
    refs.map_values(|r: &KeyRecord| r@)
}

/// The test that keeps the records whose expiry state at `now` is `expired`.
pub open spec fn expiry_is(now: i64, expired: bool) -> spec_fn(KeyRecordView) -> bool {
    |r: KeyRecordView| r.expired_at(now) == expired
}

/// The two key records of the service.
pub struct KeyStore {
    active: KeyRecord,
    expired: KeyRecord,
}

/// What a [`KeyStore`] holds: its two fixed slots.
pub struct KeyStoreView {
    /// The record that was generated with an expiry in the future.
    pub active: KeyRecordView,
    /// The record that was generated with an expiry in the past.
    pub expired: KeyRecordView,
}

impl View for KeyStore {
    type V = KeyStoreView;

    closed spec fn view(&self) -> KeyStoreView {
        KeyStoreView { active: self.active@, expired: self.expired@ }
    }
}

impl KeyStoreView {
    /// Both records, the active one first.
    pub open spec fn all_records(self) -> Seq<KeyRecordView> {
        seq![self.active, self.expired]
    }

    /// The records that are still valid at `now`, in store order.
    pub open spec fn unexpired_records(self, now: i64) -> Seq<KeyRecordView> {
        self.all_records().filter(expiry_is(now, false))
    }

    /// The records that are expired at `now`, in store order.
    pub open spec fn expired_records(self, now: i64) -> Seq<KeyRecordView> {
        self.all_records().filter(expiry_is(now, true))
    }

    /// The keys published at `now`: the JWK of every record that is still valid.
    pub open spec fn discovery_set(self, now: i64) -> Seq<JwkView> {
        self.unexpired_records(now).map_values(|r: KeyRecordView| r.jwk())
    }

    /// The store's expiry instants are those of a store built when the clock read `now`.
    pub open spec fn built_at(self, now: i64) -> bool {
        &&& self.active.expires_at == now + KEY_LIFETIME_SECONDS
        &&& self.expired.expires_at == now - KEY_LIFETIME_SECONDS
    }

    /// The modulus size of the store's keys, in bits.
    pub open spec fn key_bits(self) -> nat {
        self.active.public_key.modulus_bits()
    }

    /// What every store satisfies: the two expiry instants lie two lifetimes apart, both
    /// records are well formed and their keys have the same size.
    pub open spec fn wf(self) -> bool {
        &&& self.active.expires_at - self.expired.expires_at == 2 * KEY_LIFETIME_SECONDS
        &&& self.active.wf()
        &&& self.expired.wf()
        &&& self.active.public_key.modulus_bits() == self.expired.public_key.modulus_bits()
    }
}

impl KeyStore {
    /// Every store is well formed: the fields are private and the constructors see to it.
    #[verifier::type_invariant]
    spec fn inv(&self) -> bool {
        self@.wf()
    }

    /// Generates a key pair of `key_bits` bits and gives it a fresh identifier and the
    /// expiry instant `expires_at`. Whether a key comes back is up to the generator, but
    /// for a size under [`SMALLEST_KEY_BITS`] none does. A generated record is the
    /// record of its private key.
    pub fn generate_key_record(expires_at: i64, key_bits: usize) -> (res: Result<
        KeyRecord,
        KeyGenError,
    >)
        ensures
            res matches Ok(rec) ==> {
                &&& record_of(rec@.kid, expires_at, rec@.private_key) == Some(rec@)
                &&& rec@.public_key.modulus_bits() == key_bits
                &&& rec@.wf()
            },
            key_bits < SMALLEST_KEY_BITS ==> res matches Err(KeyGenError::Generation(_)),
    {
        match generate_private_key(key_bits) {
            Ok(private_key) => {
                let kid = random_kid();
                Ok(KeyRecord::from_private_key(kid, expires_at, private_key).unwrap())
            },
            Err(e) => Err(e),
        }
    }

    /// Puts two records into the slots of a store, if together they make one: each well
    /// formed, with keys of one size and with expiry instants two lifetimes apart.
    pub fn from_records(active: KeyRecord, expired: KeyRecord) -> (res: Option<Self>)
        ensures
            match res {
                Some(store) => store@ == (KeyStoreView { active: active@, expired: expired@ })
                    && store@.wf(),
                None => !(KeyStoreView { active: active@, expired: expired@ }).wf(),
            },
    {
        let apart = active.expires_at as i128 - expired.expires_at as i128;
        if apart == 2 * (KEY_LIFETIME_SECONDS as i128) && active.is_well_formed()
            && expired.is_well_formed() && active.public_key.same_modulus_bits(
            &expired.public_key,
        ) {
            Some(Self { active, expired })
        } else {
            None
        }
    }

    /// Builds a store with keys of the default size, as of the current time. Whether the
    /// keys come back is up to the generator.
    pub fn new() -> (res: Result<Self, KeyGenError>)
        ensures
            res matches Ok(store) ==> {
                &&& store@.wf()
                &&& store@.key_bits() == DEFAULT_KEY_BITS
                &&& exists|now: i64| is_clock_reading(now) && #[trigger] store@.built_at(now)
            },
    {
        Self::new_with_bits(DEFAULT_KEY_BITS)
    }

    /// Builds a store with keys of `key_bits` bits, as of the current time. Whether the
    /// keys come back is up to the generator, but for a size under
    /// [`SMALLEST_KEY_BITS`] none does.
    pub fn new_with_bits(key_bits: usize) -> (res: Result<Self, KeyGenError>)
        ensures
            res matches Ok(store) ==> {
                &&& store@.wf()
                &&& store@.key_bits() == key_bits
                &&& exists|now: i64| is_clock_reading(now) && #[trigger] store@.built_at(now)
            },
            key_bits < SMALLEST_KEY_BITS ==> res matches Err(KeyGenError::Generation(_)),
    {
        let now = now_unix();
        let res = Self::new_with_bits_at(now, key_bits);
        proof {
            if res is Ok {
                assert(is_clock_reading(now) && res->Ok_0@.built_at(now));
            }
        }
        res
    }

    /// Builds a store with keys of `key_bits` bits as if the clock read `now`: the active
    /// record expires one lifetime after `now`, the expired one did so one lifetime before.
    /// Whether the keys come back is up to the generator, but for a size under
    /// [`SMALLEST_KEY_BITS`] none does.
    pub fn new_with_bits_at(now: i64, key_bits: usize) -> (res: Result<Self, KeyGenError>)
        requires
            i64::MIN + KEY_LIFETIME_SECONDS <= now <= i64::MAX - KEY_LIFETIME_SECONDS,
        ensures
            res matches Ok(store) ==> {
                &&& store@.wf()
                &&& store@.key_bits() == key_bits
                &&& store@.built_at(now)
            },
            key_bits < SMALLEST_KEY_BITS ==> res matches Err(KeyGenError::Generation(_)),
    {
        let active = match Self::generate_key_record(now + KEY_LIFETIME_SECONDS, key_bits) {
            Ok(rec) => rec,
            Err(e) => return Err(e),
        };
        let expired = match Self::generate_key_record(now - KEY_LIFETIME_SECONDS, key_bits) {
            Ok(rec) => rec,
            Err(e) => return Err(e),
        };

        Ok(Self::from_records(active, expired).unwrap())
    }

    /// Both records, the active one first. The store is well formed, as every store is.
    pub fn all_keys(&self) -> (keys: Vec<&KeyRecord>)
        ensures
            views_of(keys@) == self@.all_records(),
            self@.wf(),
    {
        proof {
            use_type_invariant(self);
        }
        let keys = vec![&self.active, &self.expired];
        assert(views_of(keys@) =~= self@.all_records());
        keys
    }

    fn keys_by_expiry(&self, now: i64, expired: bool) -> (kept: Vec<&KeyRecord>)
        ensures
            views_of(kept@) == self@.all_records().filter(expiry_is(now, expired)),
    {
        let keys = self.all_keys();
        let mut kept: Vec<&KeyRecord> = Vec::new();
        let mut i: usize = 0;
        assert(views_of(keys@).take(0).filter(expiry_is(now, expired)) =~= Seq::empty()) by {
            reveal(Seq::filter);
        }
        while i < keys.len()
            invariant
                i <= keys.len(),
                views_of(kept@) == views_of(keys@).take(i as int).filter(expiry_is(now, expired)),
            decreases keys.len() - i,
        {
            let key = keys[i];
            proof {
                reveal(Seq::filter);
                let next = views_of(keys@).take(i + 1);
                assert(next.drop_last() =~= views_of(keys@).take(i as int));
                assert(next.last() == key@);
            }
            if key.is_expired_at(now) == expired {
                let ghost before = views_of(kept@);
                kept.push(key);
                assert(views_of(kept@) =~= before.push(key@));
            }
            i += 1;
        }
        assert(views_of(keys@).take(i as int) =~= views_of(keys@));
        kept
    }

    /// The records that are still valid when the clock reads `now`.
    pub fn unexpired_keys_at(&self, now: i64) -> (keys: Vec<&KeyRecord>)
        ensures
            views_of(keys@) == self@.unexpired_records(now),
    {
        self.keys_by_expiry(now, false)
    }

    /// The records that are expired when the clock reads `now`.
    pub fn expired_keys_at(&self, now: i64) -> (keys: Vec<&KeyRecord>)
        ensures
            views_of(keys@) == self@.expired_records(now),
    {
        self.keys_by_expiry(now, true)
    }

    /// The records that are still valid at the moment of the call.
    pub fn unexpired_keys(&self) -> (keys: Vec<&KeyRecord>)
        ensures
            exists|now: i64|
                is_clock_reading(now) && views_of(keys@) == #[trigger] self@.unexpired_records(now),
    {
        let now = now_unix();
        let keys = self.unexpired_keys_at(now);
        assert(is_clock_reading(now) && views_of(keys@) == self@.unexpired_records(now));
        keys
    }

    /// The records that are expired at the moment of the call.
    pub fn expired_keys(&self) -> (keys: Vec<&KeyRecord>)
        ensures
            exists|now: i64|
                is_clock_reading(now) && views_of(keys@) == #[trigger] self@.expired_records(now),
    {
        let now = now_unix();
        let keys = self.expired_keys_at(now);
        assert(is_clock_reading(now) && views_of(keys@) == self@.expired_records(now));
        keys
    }

    /// The record in the active slot, whatever the time.
    pub fn active_key(&self) -> (rec: &KeyRecord)
        ensures
            rec@ == self@.active,
    {
        &self.active
    }

    /// The record in the expired slot, whatever the time.
    pub fn expired_key(&self) -> (rec: &KeyRecord)
        ensures
            rec@ == self@.expired,
    {
        &self.expired
    }

    /// The identifier of the active record.
    pub fn active_kid(&self) -> (kid: &str)
        ensures
            kid@ == self@.active.kid,
    {
        self.active.kid.as_str()
    }

    /// The identifier of the expired record.
    pub fn expired_kid(&self) -> (kid: &str)
        ensures
            kid@ == self@.expired.kid,
    {
        self.expired.kid.as_str()
    }

    /// The key set published when the clock reads `now`.
    pub fn jwks_unexpired_at(&self, now: i64) -> (jwks: Jwks)
        ensures
            jwks@ == self@.discovery_set(now),
            forall|i: int| 0 <= i < jwks@.len() ==> is_rs256_signing_jwk(#[trigger] jwks@[i]),
    {
        let records = self.unexpired_keys_at(now);
        let mut keys: Vec<Jwk> = Vec::new();
        let mut i: usize = 0;
        while i < records.len()
            invariant
                i <= records.len(),
                keys@.len() == i,
                forall|j: int| 0 <= j < i ==> (#[trigger] keys@[j])@ == records@[j]@.jwk(),
            decreases records.len() - i,
        {
            let rec = records[i];
            keys.push(jwk_from_rsa_public(&rec.public_key, rec.kid.as_str()));
            i += 1;
        }
        let jwks = Jwks { keys };
        assert(jwks@ =~= self@.discovery_set(now)) by {
            assert forall|j: int| 0 <= j < records@.len() implies (#[trigger] jwks.keys@[j])@
                == self@.unexpired_records(now)[j].jwk() by {
                assert(views_of(records@)[j] == records@[j]@);
            }
        }
        proof {
            use_type_invariant(self);
        }
        assert forall|i: int| 0 <= i < jwks@.len() implies is_rs256_signing_jwk(
            #[trigger] jwks@[i],
        ) by {
            self@.published_keys_are_signing_jwks(now, i);
        }
        jwks
    }

    /// The key set published at the moment of the call.
    pub fn jwks_unexpired(&self) -> (jwks: Jwks)
        ensures
            exists|now: i64| is_clock_reading(now) && jwks@ == #[trigger] self@.discovery_set(now),
            forall|i: int| 0 <= i < jwks@.len() ==> is_rs256_signing_jwk(#[trigger] jwks@[i]),
    {
        let now = now_unix();
        let jwks = self.jwks_unexpired_at(now);
        assert(is_clock_reading(now) && jwks@ == self@.discovery_set(now));
        jwks
    }
}

impl KeyStoreView {
    proof fn lemma_records_by_expiry(self, now: i64, expired: bool)
        ensures
            self.all_records().filter(expiry_is(now, expired)) == (if self.active.expired_at(now)
                == expired {
                seq![self.active]
            } else {
                Seq::empty()
            }) + (if self.expired.expired_at(now) == expired {
                seq![self.expired]
            } else {
                Seq::empty()
            }),
    {
        reveal_with_fuel(Seq::filter, 3);
        let all = self.all_records();
        assert(all.drop_last() =~= seq![self.active]);
        assert(all.drop_last().drop_last() =~= Seq::<KeyRecordView>::empty());
        assert(all.filter(expiry_is(now, expired)) =~= (if self.active.expired_at(now) == expired {
            seq![self.active]
        } else {
            Seq::empty()
        }) + (if self.expired.expired_at(now) == expired {
            seq![self.expired]
        } else {
            Seq::empty()
        }));
    }

    /// A store has exactly two records, and at any instant each of them is either still
    /// valid or expired, never both: the two lists share the records between them.
    pub proof fn records_split_by_expiry(self, now: i64)
        ensures
            self.all_records().len() == 2,
            self.unexpired_records(now).len() + self.expired_records(now).len() == 2,
    {
        self.lemma_records_by_expiry(now, false);
        self.lemma_records_by_expiry(now, true);
    }

    /// From the moment a store is built until its active key expires, the active record
    /// is valid and the expired record is expired, so exactly the active key is
    /// published.
    pub proof fn live_window(self, built: i64, now: i64)
        requires
            self.built_at(built),
            built <= now < built + KEY_LIFETIME_SECONDS,
        ensures
            !self.active.expired_at(now),
            self.expired.expired_at(now),
            self.unexpired_records(now) == seq![self.active],
            self.expired_records(now) == seq![self.expired],
            self.discovery_set(now) == seq![self.active.jwk()],
    {
        self.lemma_records_by_expiry(now, false);
        self.lemma_records_by_expiry(now, true);
        assert(self.unexpired_records(now) =~= seq![self.active]);
        assert(self.expired_records(now) =~= seq![self.expired]);
        assert(self.discovery_set(now) =~= seq![self.active.jwk()]);
    }

    /// Once the expired record's expiry has passed, every published key carries the
    /// active record's identifier: the expired record's identifier is published only if
    /// the two coincide.
    pub proof fn published_kids_are_active(self, now: i64, i: int)
        requires
            self.expired.expired_at(now),
            0 <= i < self.discovery_set(now).len(),
        ensures
            self.discovery_set(now) == seq![self.active.jwk()],
            self.discovery_set(now)[i].kid == self.active.kid,
    {
        self.lemma_records_by_expiry(now, false);
        assert(self.discovery_set(now) =~= seq![self.active.jwk()]);
    }

    /// Every key that a well-formed store publishes is an RS256 signing key with a
    /// non-empty modulus and exponent in URL-safe base64; the exponent is `AQAB` and the
    /// identifier is a UUID.
    pub proof fn published_keys_are_signing_jwks(self, now: i64, i: int)
        requires
            self.wf(),
            0 <= i < self.discovery_set(now).len(),
        ensures
            is_rs256_signing_jwk(self.discovery_set(now)[i]),
            self.discovery_set(now)[i].e == "AQAB"@,
            is_hyphenated_uuid(self.discovery_set(now)[i].kid),
    {
        self.lemma_records_by_expiry(now, false);
        jwk_of_valid_key_is_signing_jwk(self.active.public_key, self.active.kid);
        jwk_of_valid_key_is_signing_jwk(self.expired.public_key, self.expired.kid);
        jwk_of_generated_key_has_exponent_aqab(self.active.public_key, self.active.kid);
        jwk_of_generated_key_has_exponent_aqab(self.expired.public_key, self.expired.kid);
    }
}

} // verus!
