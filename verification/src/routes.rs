//! What the issuance endpoint decides: which record signs, and how the outcome is answered.

use crate::clock::{is_clock_reading, now_unix};
use crate::jwk::jwk_of;
use crate::jwt::{is_compact_serialization, is_issued_by, issue_jwt_at};
use crate::keystore::{KeyRecord, KeyRecordView, KeyStore, KeyStoreView, KEY_LIFETIME_SECONDS};
use crate::rsa_key::rsa_public_half;
use vstd::prelude::*;

verus! {

/// The status that answers a request whose token was issued.
pub const STATUS_OK: u16 = 200;

/// The status that answers a request whose token could not be signed.
pub const STATUS_INTERNAL_SERVER_ERROR: u16 = 500;

/// The record that signs a request: the expired slot where the request asks for an
/// expired token, the active slot otherwise. The slots are fixed; the time plays no part.
pub open spec fn signing_record(store: KeyStoreView, use_expired: bool) -> KeyRecordView {
    if use_expired {
        store.expired
    } else {
        store.active
    }
}

/// Picks the record that signs a request.
pub fn signing_key(store: &KeyStore, use_expired: bool) -> (rec: &KeyRecord)
    ensures
        rec@ == signing_record(store@, use_expired),
{
    if use_expired {
        store.expired_key()
    } else {
        store.active_key()
    }
}

/// Answers an issuance request as if the clock read `now`.
pub fn auth_token_at(store: &KeyStore, use_expired: bool, now: i64) -> (res: Result<String, String>)
    ensures
        is_issued_by(res, signing_record(store@, use_expired), now),
        res matches Ok(token) ==> is_compact_serialization(token@),
{
    issue_jwt_at(signing_key(store, use_expired), now)
}

/// Answers an issuance request at the current time.
pub fn auth_token(store: &KeyStore, use_expired: bool) -> (res: Result<String, String>)
    ensures
        exists|now: i64|
            is_clock_reading(now) && #[trigger] is_issued_by(
                res,
                signing_record(store@, use_expired),
                now,
            ),
        res matches Ok(token) ==> is_compact_serialization(token@),
{
    let now = now_unix();
    let res = auth_token_at(store, use_expired, now);
    assert(is_clock_reading(now) && is_issued_by(res, signing_record(store@, use_expired), now));
    res
}

/// The status that answers an issuance: 200 with the token, 500 with the description of
/// the failure.
pub fn auth_status(outcome: &Result<String, String>) -> (status: u16)
    ensures
        status == if outcome is Ok {
            STATUS_OK
        } else {
            STATUS_INTERNAL_SERVER_ERROR
        },
{
    match outcome {
        Ok(_) => STATUS_OK,
        Err(_) => STATUS_INTERNAL_SERVER_ERROR,
    }
}

/// While the active key of a store built at `built` is valid, a request without the
/// expired flag is signed by the one record that is published: the published key carries
/// that record's identifier and the modulus and exponent of the public half of the key
/// that signs. The token's expiry, which is that record's, lies after `now`.
pub proof fn plain_request_uses_the_published_key(store: KeyStoreView, built: i64, now: i64)
    requires
        store.wf(),
        store.built_at(built),
        built <= now < built + KEY_LIFETIME_SECONDS,
    ensures
        store.discovery_set(now) == seq![signing_record(store, false).jwk()],
        rsa_public_half(signing_record(store, false).private_key) matches Some(public)
            && store.discovery_set(now)[0] == jwk_of(public, signing_record(store, false).kid),
        signing_record(store, false).expires_at > now,
{
    store.live_window(built, now);
}

/// From the moment a store is built, a request with the expired flag is signed by a
/// record whose expiry lies before `now`, and whose identifier is not published as long
/// as it differs from the active record's.
pub proof fn expired_request_uses_an_unpublished_key(
    store: KeyStoreView,
    built: i64,
    now: i64,
    i: int,
)
    requires
        store.built_at(built),
        built <= now,
        store.active.kid != store.expired.kid,
        0 <= i < store.discovery_set(now).len(),
    ensures
        store.discovery_set(now)[i].kid != signing_record(store, true).kid,
        signing_record(store, true).expires_at < now,
{
    store.published_kids_are_active(now, i);
}

} // verus!
