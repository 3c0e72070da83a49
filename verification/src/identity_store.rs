//! The local identity store.
//!
//! Each profile owns two files: the identity record, which holds the secret
//! signing seed, and the session cache, sealed under a key derived from
//! that identity. This module works on an in-memory image of the two
//! files, a [`ProfileStore`]: the caller reads the files into it, calls an
//! operation, and writes back what changed. Everything the operations
//! decide is therefore visible in their contracts.

use crate::codec::{
    aead_failure, base64_bytes, base64_decode, base64_encode, base64_text,
    chacha20poly1305_opened, chacha20poly1305_sealed, ed25519_verifying_key,
    generate_signing_seed, is_uuid_text, json_error_text, json_string, json_string_literal,
    new_wayfair_id,
    open, random_bytes, seal, sealable_len, sha256, sha256_digest, verifying_key_of, KEY_LEN,
    NONCE_LEN,
};
use crate::profile::{device_name_for, infer_device_name};
use crate::text::concat;
use vstd::prelude::*;
use vstd::string::StringExecFns;
use vstd::utf8::encode_utf8;

verus! {

/// Platform tag written into every identity this client creates.
pub const PLATFORM: &'static str = "linux";

/// The identity record as it is persisted.
#[derive(Debug, PartialEq, Eq)]
pub struct StoredIdentity {
    pub wayfair_id: String,
    pub signing_key_b64: String,
    pub device_name: String,
    pub platform: String,
}

/// The persisted form of a sealed payload.
#[derive(Debug, Clone, PartialEq, Eq)]
pub struct EncryptedEnvelope {
    pub nonce_b64: String,
    pub ciphertext_b64: String,
}

/// Last known relay diagnostics, kept confidential at rest.
#[derive(Debug, Clone, PartialEq, Eq)]
pub struct RelaySessionCache {
    pub primary_status: String,
    pub secondary_status: String,
}

/// What the rest of the application may see of an identity.
#[derive(Debug, Clone, PartialEq, Eq)]
pub struct LocalIdentitySummary {
    pub wayfair_id: String,
    pub verifying_key_b64: String,
    pub device_name: String,
}

/// What is known of one file of a profile.
#[derive(Debug, Clone, PartialEq, Eq)]
pub enum Stored<T> {
    /// The file does not exist.
    Absent,
    /// The file exists and holds this value.
    Present(T),
    /// The file exists but could not be read or understood; the text says
    /// why.
    Unreadable(String),
}

/// The two files of one profile.
#[derive(Debug, Clone, PartialEq, Eq)]
pub struct ProfileStore {
    pub identity: Stored<StoredIdentity>,
    pub session_cache: Stored<EncryptedEnvelope>,
}

/// Model of a [`StoredIdentity`].
pub struct IdentityRecord {
    pub wayfair_id: Seq<char>,
    pub signing_key_b64: Seq<char>,
    pub device_name: Seq<char>,
    pub platform: Seq<char>,
}

/// Model of an [`EncryptedEnvelope`].
pub struct EnvelopeRecord {
    pub nonce_b64: Seq<char>,
    pub ciphertext_b64: Seq<char>,
}

/// Model of a [`RelaySessionCache`].
pub struct CacheRecord {
    pub primary_status: Seq<char>,
    pub secondary_status: Seq<char>,
}

/// Model of a [`LocalIdentitySummary`].
pub struct SummaryRecord {
    pub wayfair_id: Seq<char>,
    pub verifying_key_b64: Seq<char>,
    pub device_name: Seq<char>,
}

/// Model of a [`Stored`] file.
pub enum Kept<V> {
    Absent,
    Present(V),
    Unreadable(Seq<char>),
}

/// Model of a [`ProfileStore`].
pub struct StoreRecord {
    pub identity: Kept<IdentityRecord>,
    pub session_cache: Kept<EnvelopeRecord>,
}

impl View for StoredIdentity {
    type V = IdentityRecord;

    open spec fn view(&self) -> IdentityRecord {
        IdentityRecord {
            wayfair_id: self.wayfair_id@,
            signing_key_b64: self.signing_key_b64@,
            device_name: self.device_name@,
            platform: self.platform@,
        }
    }
}

impl View for EncryptedEnvelope {
    type V = EnvelopeRecord;

    open spec fn view(&self) -> EnvelopeRecord {
        EnvelopeRecord { nonce_b64: self.nonce_b64@, ciphertext_b64: self.ciphertext_b64@ }
    }
}

impl View for RelaySessionCache {
    type V = CacheRecord;

    open spec fn view(&self) -> CacheRecord {
        CacheRecord {
            primary_status: self.primary_status@,
            secondary_status: self.secondary_status@,
        }
    }
}

impl View for LocalIdentitySummary {
    type V = SummaryRecord;

    open spec fn view(&self) -> SummaryRecord {
        SummaryRecord {
            wayfair_id: self.wayfair_id@,
            verifying_key_b64: self.verifying_key_b64@,
            device_name: self.device_name@,
        }
    }
}

impl<T: View> View for Stored<T> {
    type V = Kept<T::V>;

    open spec fn view(&self) -> Kept<T::V> {
        match self {
            Stored::Absent => Kept::Absent,
            Stored::Present(value) => Kept::Present(value@),
            Stored::Unreadable(reason) => Kept::Unreadable(reason@),
        }
    }
}

impl View for ProfileStore {
    type V = StoreRecord;

    open spec fn view(&self) -> StoreRecord {
        StoreRecord { identity: self.identity@, session_cache: self.session_cache@ }
    }
}

impl Clone for StoredIdentity {
    fn clone(&self) -> (copy: Self)
        ensures
            copy == *self,
    {
        StoredIdentity {
            wayfair_id: self.wayfair_id.clone(),
            signing_key_b64: self.signing_key_b64.clone(),
            device_name: self.device_name.clone(),
            platform: self.platform.clone(),
        }
    }
}

/// The outcome of an operation that gave `value`.
pub open spec fn success<T>(value: T) -> Result<T, Seq<char>> {
    Ok(value)
}

/// The outcome of an operation that failed and says `reason`.
pub open spec fn failure<T>(reason: Seq<char>) -> Result<T, Seq<char>> {
    Err(reason)
}

/// The outcome of an operation that yields a summary, as a model value.
pub open spec fn summary_outcome(r: Result<LocalIdentitySummary, String>) -> Result<
    SummaryRecord,
    Seq<char>,
> {
    match r {
        Ok(summary) => Ok(summary@),
        Err(message) => Err(message@),
    }
}

/// The summary that an identity with the secret `seed` presents.
pub open spec fn summary_for_seed(identity: IdentityRecord, seed: Seq<u8>) -> SummaryRecord {
    SummaryRecord {
        wayfair_id: identity.wayfair_id,
        verifying_key_b64: base64_text(ed25519_verifying_key(seed)),
        device_name: identity.device_name,
    }
}

/// What a stored identity presents to the application. The verifying key
/// is derived from the stored seed each time, never stored beside it.
pub open spec fn summary_of(identity: IdentityRecord) -> Result<SummaryRecord, Seq<char>> {
    match base64_bytes(identity.signing_key_b64) {
        Err(reason) => Err("failed to decode signing key: "@ + reason),
        Ok(seed) => if seed.len() != KEY_LEN {
            Err("decoded signing key had invalid length"@)
        } else {
            Ok(summary_for_seed(identity, seed))
        },
    }
}

/// The key that seals the session cache of `identity`: the digest of the
/// secret seed followed by the public identifier.
pub open spec fn cache_key_of(identity: IdentityRecord) -> Result<Seq<u8>, Seq<char>> {
    match base64_bytes(identity.signing_key_b64) {
        Err(reason) => Err("failed to decode signing key for cache cipher: "@ + reason),
        Ok(seed) => Ok(sha256(seed + encode_utf8(identity.wayfair_id))),
    }
}

/// `identity` is what generation produces on a host that reports
/// `hostname`: an identifier in UUID form, some 32-byte seed, this
/// platform's tag and the host's label.
pub open spec fn is_fresh_identity(identity: IdentityRecord, hostname: Option<Seq<char>>) -> bool {
    &&& is_uuid_text(identity.wayfair_id)
    &&& identity.platform == PLATFORM@
    &&& identity.device_name == device_name_for(hostname)
    &&& exists|seed: Seq<u8>|
        seed.len() == KEY_LEN && identity.signing_key_b64 == #[trigger] base64_text(seed)
}

/// The model of an optional host name.
pub open spec fn hostname_view(hostname: Option<&str>) -> Option<Seq<char>> {
    match hostname {
        Some(name) => Some(name@),
        None => None,
    }
}

/// Derives the summary of a stored identity.
///
/// The result is `summary_of(identity@)`. In particular, an identity whose
/// stored key is the encoding of a 32-byte seed always has a summary, and
/// its verifying key is the one that belongs to that seed.
pub fn summary_from_identity(identity: &StoredIdentity) -> (r: Result<LocalIdentitySummary, String>)
    ensures
        summary_outcome(r) == summary_of(identity@),
        forall|seed: Seq<u8>|
            seed.len() == KEY_LEN && identity.signing_key_b64@ == #[trigger] base64_text(seed)
                ==> summary_outcome(r) == success(summary_for_seed(identity@, seed)),
{
    let seed = match base64_decode(identity.signing_key_b64.as_str()) {
        Ok(seed) => seed,
        Err(reason) => {
            return Err(concat("failed to decode signing key: ", reason.as_str()));
        },
    };
    if seed.len() != KEY_LEN {
        return Err("decoded signing key had invalid length".to_owned());
    }
    let verifying = verifying_key_of(seed.as_slice());
    Ok(
        LocalIdentitySummary {
            wayfair_id: identity.wayfair_id.clone(),
            verifying_key_b64: base64_encode(verifying.as_slice()),
            device_name: identity.device_name.clone(),
        },
    )
}

/// Derives the key that seals the session cache of `identity`.
pub fn cache_key_from_identity(identity: &StoredIdentity) -> (r: Result<Vec<u8>, String>)
    ensures
        match r {
            Ok(key) => cache_key_of(identity@) == success(key@),
            Err(message) => cache_key_of(identity@) == failure::<Seq<u8>>(message@),
        },
        r matches Ok(key) ==> key@.len() == KEY_LEN,
{
    let seed = match base64_decode(identity.signing_key_b64.as_str()) {
        Ok(seed) => seed,
        Err(reason) => {
            return Err(
                concat("failed to decode signing key for cache cipher: ", reason.as_str()),
            );
        },
    };
    let ghost secret = seed@;
    let mut material = seed;
    let id_bytes = identity.wayfair_id.as_str().as_bytes();
    material.extend_from_slice(id_bytes);
    assert(material@ == secret + encode_utf8(identity.wayfair_id@));
    Ok(sha256_digest(material.as_slice()))
}

/// Generates an identity: a random signing seed, a random identifier, the
/// host's device label and this platform's tag.
fn generate_identity(hostname: Option<&str>) -> (identity: StoredIdentity)
    ensures
        is_fresh_identity(identity@, hostname_view(hostname)),
{
    let seed = generate_signing_seed();
    let identity = StoredIdentity {
        wayfair_id: new_wayfair_id(),
        signing_key_b64: base64_encode(seed.as_slice()),
        device_name: infer_device_name(hostname),
        platform: PLATFORM.to_owned(),
    };
    assert(identity.signing_key_b64@ == base64_text(seed@));
    identity
}

/// What regeneration leaves behind: a fresh identity in the store, the
/// session cache file untouched, and the fresh identity's summary as the
/// result.
pub open spec fn regenerated(
    before: StoreRecord,
    after: StoreRecord,
    hostname: Option<Seq<char>>,
    outcome: Result<SummaryRecord, Seq<char>>,
) -> bool {
    &&& after.session_cache == before.session_cache
    &&& after.identity matches Kept::Present(identity)
    &&& is_fresh_identity(identity, hostname)
    &&& outcome is Ok
    &&& outcome == summary_of(identity)
}

/// Replaces the identity of the profile by a freshly generated one.
///
/// The old secret is discarded. A session cache sealed under it stays in
/// the store but no longer opens.
pub fn regenerate_local_identity_for_profile(
    store: &mut ProfileStore,
    hostname: Option<&str>,
) -> (r: Result<LocalIdentitySummary, String>)
    ensures
        regenerated(old(store)@, final(store)@, hostname_view(hostname), summary_outcome(r)),
        final(store).session_cache == old(store).session_cache,
{
    let identity = generate_identity(hostname);
    let summary = summary_from_identity(&identity);
    store.identity = Stored::Present(identity);
    summary
}

/// How making sure of an identity changes the identity file: one that is
/// there, readable or not, is left alone; where there is none, a fresh one
/// is generated.
pub open spec fn identity_ensured(
    before: Kept<IdentityRecord>,
    after: Kept<IdentityRecord>,
    hostname: Option<Seq<char>>,
) -> bool {
    match before {
        Kept::Absent => after matches Kept::Present(identity) && is_fresh_identity(
            identity,
            hostname,
        ),
        _ => after == before,
    }
}

/// Returns the stored identity of the profile, generating one first where
/// the profile has none. An identity file that cannot be read is an error,
/// not an absent identity.
pub fn ensure_stored_identity(store: &mut ProfileStore, hostname: Option<&str>) -> (r: Result<
    StoredIdentity,
    String,
>)
    ensures
        identity_ensured(old(store)@.identity, final(store)@.identity, hostname_view(hostname)),
        final(store).session_cache == old(store).session_cache,
        old(store).identity !is Absent ==> *final(store) == *old(store),
        match final(store).identity {
            Stored::Present(identity) => (r matches Ok(found) && found == identity),
            Stored::Unreadable(reason) => (r matches Err(said) && said == reason),
            Stored::Absent => false,
        },
{
    match &store.identity {
        Stored::Present(identity) => Ok(identity.clone()),
        Stored::Unreadable(reason) => Err(reason.clone()),
        Stored::Absent => {
            let identity = generate_identity(hostname);
            let copy = identity.clone();
            store.identity = Stored::Present(identity);
            Ok(copy)
        },
    }
}

/// What `ensure_local_identity_for_profile` does to a store and returns.
pub open spec fn identity_summarised(
    before: StoreRecord,
    after: StoreRecord,
    hostname: Option<Seq<char>>,
    outcome: Result<SummaryRecord, Seq<char>>,
) -> bool {
    match before.identity {
        Kept::Present(identity) => after == before && outcome == summary_of(identity),
        Kept::Unreadable(reason) => after == before && outcome == failure::<SummaryRecord>(reason),
        Kept::Absent => regenerated(before, after, hostname, outcome),
    }
}

/// Returns the summary of the profile's identity, generating and storing
/// an identity first where the profile has none.
pub fn ensure_local_identity_for_profile(store: &mut ProfileStore, hostname: Option<&str>) -> (r:
    Result<LocalIdentitySummary, String>)
    ensures
        identity_summarised(
            old(store)@,
            final(store)@,
            hostname_view(hostname),
            summary_outcome(r),
        ),
        old(store).identity !is Absent ==> *final(store) == *old(store),
        final(store).session_cache == old(store).session_cache,
{
    match &store.identity {
        Stored::Present(identity) => summary_from_identity(identity),
        Stored::Unreadable(reason) => Err(reason.clone()),
        Stored::Absent => regenerate_local_identity_for_profile(store, hostname),
    }
}

/// What deletion leaves behind: neither file, and success.
pub open spec fn deleted(before: StoreRecord, after: StoreRecord, succeeded: bool) -> bool {
    &&& succeeded
    &&& after.identity is Absent
    &&& after.session_cache is Absent
}

/// Forgets the identity of the profile and, with it, the session cache
/// that only this identity could open. Deleting what is not there
/// succeeds and changes nothing.
pub fn delete_wayfair_id_for_profile(store: &mut ProfileStore) -> (r: Result<(), String>)
    ensures
        deleted(old(store)@, final(store)@, r is Ok),
        final(store).identity is Absent,
        final(store).session_cache is Absent,
{
    store.identity = Stored::Absent;
    store.session_cache = Stored::Absent;
    Ok(())
}

/// The JSON text of a session cache: an object with the two status texts,
/// in this order and without white space.
pub open spec fn cache_json(cache: CacheRecord) -> Seq<char> {
    "{\"primary_status\":"@ + json_string(cache.primary_status) + ",\"secondary_status\":"@
        + json_string(cache.secondary_status) + "}"@
}

/// The bytes that are sealed when `cache` is saved.
pub open spec fn cache_payload(cache: CacheRecord) -> Seq<u8> {
    encode_utf8(cache_json(cache))
}

/// The envelope that holds `payload` sealed under `key` and `nonce`.
pub open spec fn sealed_envelope(key: Seq<u8>, nonce: Seq<u8>, payload: Seq<u8>) -> EnvelopeRecord {
    EnvelopeRecord {
        nonce_b64: base64_text(nonce),
        ciphertext_b64: base64_text(chacha20poly1305_sealed(key, nonce, payload)),
    }
}

/// The outcome of saving, as a model value.
pub open spec fn save_outcome(r: Result<(), String>) -> Result<(), Seq<char>> {
    match r {
        Ok(_) => Ok(()),
        Err(message) => Err(message@),
    }
}

/// The outcome of loading, as a model value.
pub open spec fn load_outcome(r: Result<Option<Vec<u8>>, String>) -> Result<
    Option<Seq<u8>>,
    Seq<char>,
> {
    match r {
        Ok(Some(payload)) => Ok(Some(payload@)),
        Ok(None) => Ok(None),
        Err(message) => Err(message@),
    }
}

/// What saving `payload` does to the session cache file of a store whose
/// identity is `identity`, and what it reports.
pub open spec fn cache_sealed(
    identity: Kept<IdentityRecord>,
    before: Kept<EnvelopeRecord>,
    after: Kept<EnvelopeRecord>,
    payload: Seq<u8>,
    outcome: Result<(), Seq<char>>,
) -> bool {
    match identity {
        Kept::Absent => false,
        Kept::Unreadable(reason) => after == before && outcome == failure::<()>(reason),
        Kept::Present(identity) => match cache_key_of(identity) {
            Err(reason) => after == before && outcome == failure::<()>(reason),
            Ok(key) => if sealable_len(payload.len()) {
                &&& outcome is Ok
                &&& exists|nonce: Seq<u8>|
                    nonce.len() == NONCE_LEN && after == Kept::Present(
                        #[trigger] sealed_envelope(key, nonce, payload),
                    )
            } else {
                &&& after == before
                &&& outcome == failure::<()>(
                    "failed to encrypt session cache payload: "@ + aead_failure(),
                )
            },
        },
    }
}

/// What `save_relay_session_cache_for_profile` does to a store and
/// reports: it makes sure of an identity, then seals the payload under
/// that identity's cache key and a fresh nonce.
pub open spec fn cache_saved(
    before: StoreRecord,
    after: StoreRecord,
    hostname: Option<Seq<char>>,
    payload: Seq<u8>,
    outcome: Result<(), Seq<char>>,
) -> bool {
    &&& identity_ensured(before.identity, after.identity, hostname)
    &&& cache_sealed(after.identity, before.session_cache, after.session_cache, payload, outcome)
}

/// What opening the session cache file `cache` with `identity` gives: no
/// payload where there is no file, the payload where the file opens, and
/// otherwise the first thing that is wrong.
pub open spec fn opened_payload(identity: IdentityRecord, cache: Kept<EnvelopeRecord>) -> Result<
    Option<Seq<u8>>,
    Seq<char>,
> {
    match cache {
        Kept::Absent => Ok(None),
        _ => match cache_key_of(identity) {
            Err(reason) => Err(reason),
            Ok(key) => match cache {
                Kept::Absent => Ok(None),
                Kept::Unreadable(reason) => Err(reason),
                Kept::Present(envelope) => match base64_bytes(envelope.nonce_b64) {
                    Err(reason) => Err("failed to decode cache nonce: "@ + reason),
                    Ok(nonce) => if nonce.len() != NONCE_LEN {
                        Err("cache nonce had invalid length"@)
                    } else {
                        match base64_bytes(envelope.ciphertext_b64) {
                            Err(reason) => Err(
                                "failed to decode encrypted cache payload: "@ + reason,
                            ),
                            Ok(sealed) => match chacha20poly1305_opened(key, nonce, sealed) {
                                None => Err(
                                    "failed to decrypt session cache payload: "@
                                        + aead_failure(),
                                ),
                                Some(payload) => Ok(Some(payload)),
                            },
                        }
                    },
                },
            },
        },
    }
}

/// An envelope that was sealed under the cache key of `identity` opens to
/// the payload that was sealed.
pub open spec fn opens_what_was_sealed(
    identity: IdentityRecord,
    cache: Kept<EnvelopeRecord>,
    outcome: Result<Option<Seq<u8>>, Seq<char>>,
) -> bool {
    forall|key: Seq<u8>, nonce: Seq<u8>, payload: Seq<u8>|
        cache_key_of(identity) == success(key) && nonce.len() == NONCE_LEN
            && sealable_len(payload.len()) && cache == Kept::Present(
            #[trigger] sealed_envelope(key, nonce, payload),
        ) ==> outcome == success(Some(payload))
}

/// What `load_relay_session_cache_for_profile` does to a store and
/// returns. Without a cache file nothing happens. With one, it makes sure
/// of an identity and opens the file with it.
pub open spec fn cache_loaded(
    before: StoreRecord,
    after: StoreRecord,
    hostname: Option<Seq<char>>,
    outcome: Result<Option<Seq<u8>>, Seq<char>>,
) -> bool {
    if before.session_cache is Absent {
        after == before && outcome == success(None::<Seq<u8>>)
    } else {
        &&& identity_ensured(before.identity, after.identity, hostname)
        &&& after.session_cache == before.session_cache
        &&& match after.identity {
            Kept::Absent => false,
            Kept::Unreadable(reason) => outcome == failure::<Option<Seq<u8>>>(reason),
            Kept::Present(identity) => {
                &&& outcome == opened_payload(identity, before.session_cache)
                &&& opens_what_was_sealed(identity, before.session_cache, outcome)
            },
        }
    }
}

/// Writes the JSON text of a session cache.
pub fn session_cache_to_json(cache: &RelaySessionCache) -> (r: Result<String, serde_json::Error>)
    ensures
        r is Ok,
        r->Ok_0@ == cache_json(cache@),
{
    let primary = match json_string_literal(cache.primary_status.as_str()) {
        Ok(literal) => literal,
        Err(error) => {
            return Err(error);
        },
    };
    let secondary = match json_string_literal(cache.secondary_status.as_str()) {
        Ok(literal) => literal,
        Err(error) => {
            return Err(error);
        },
    };
    let mut json = "{\"primary_status\":".to_owned();
    json.append(primary.as_str());
    json.append(",\"secondary_status\":");
    json.append(secondary.as_str());
    json.append("}");
    Ok(json)
}

/// Seals `payload` under the cache key of the profile's identity and a
/// fresh nonce, and puts the envelope in the place of the session cache.
/// A profile without an identity gets one first.
pub fn save_session_payload_for_profile(
    store: &mut ProfileStore,
    hostname: Option<&str>,
    payload: &[u8],
) -> (r: Result<(), String>)
    ensures
        cache_saved(old(store)@, final(store)@, hostname_view(hostname), payload@, save_outcome(r)),
        old(store).identity !is Absent ==> final(store).identity == old(store).identity,
        r is Err ==> final(store).session_cache == old(store).session_cache,
{
    let identity = match ensure_stored_identity(store, hostname) {
        Ok(identity) => identity,
        Err(reason) => {
            return Err(reason);
        },
    };
    let key = match cache_key_from_identity(&identity) {
        Ok(key) => key,
        Err(reason) => {
            return Err(reason);
        },
    };
    let nonce = random_bytes(NONCE_LEN);
    let sealed = match seal(key.as_slice(), nonce.as_slice(), payload) {
        Ok(sealed) => sealed,
        Err(reason) => {
            return Err(concat("failed to encrypt session cache payload: ", reason.as_str()));
        },
    };
    let envelope = EncryptedEnvelope {
        nonce_b64: base64_encode(nonce.as_slice()),
        ciphertext_b64: base64_encode(sealed.as_slice()),
    };
    assert(envelope@ == sealed_envelope(key@, nonce@, payload@));
    store.session_cache = Stored::Present(envelope);
    proof {
        assert(store@.identity == Kept::Present(identity@));
        let derived = cache_key_of(store@.identity->Present_0)->Ok_0;
        assert(store@.session_cache == Kept::Present(sealed_envelope(derived, nonce@, payload@)));
    }
    Ok(())
}

/// Saves the session cache of the profile, sealed under a key that only
/// the profile's current identity yields.
pub fn save_relay_session_cache_for_profile(
    store: &mut ProfileStore,
    hostname: Option<&str>,
    cache: &RelaySessionCache,
) -> (r: Result<(), String>)
    ensures
        cache_saved(
            old(store)@,
            final(store)@,
            hostname_view(hostname),
            cache_payload(cache@),
            save_outcome(r),
        ),
        old(store).identity !is Absent ==> final(store).identity == old(store).identity,
        r is Err ==> final(store).session_cache == old(store).session_cache,
{
    let json = match session_cache_to_json(cache) {
        Ok(json) => json,
        Err(error) => {
            let detail = json_error_text(&error);
            return Err(concat("failed to serialize session cache payload: ", detail.as_str()));
        },
    };
    save_session_payload_for_profile(store, hostname, json.as_str().as_bytes())
}

/// Opens the session cache of the profile and returns its payload, the
/// JSON bytes that were sealed, or `None` where the profile has no session
/// cache. A cache that does not open is an error, never an absent cache.
pub fn load_relay_session_cache_for_profile(store: &mut ProfileStore, hostname: Option<&str>) -> (r:
    Result<Option<Vec<u8>>, String>)
    ensures
        cache_loaded(old(store)@, final(store)@, hostname_view(hostname), load_outcome(r)),
        final(store).session_cache == old(store).session_cache,
        old(store).identity !is Absent || old(store).session_cache is Absent ==> *final(store)
            == *old(store),
{
    if let Stored::Absent = &store.session_cache {
        return Ok(None);
    }
    let identity = match ensure_stored_identity(store, hostname) {
        Ok(identity) => identity,
        Err(reason) => {
            return Err(reason);
        },
    };
    let key = match cache_key_from_identity(&identity) {
        Ok(key) => key,
        Err(reason) => {
            return Err(reason);
        },
    };
    let envelope = match &store.session_cache {
        Stored::Present(envelope) => envelope,
        Stored::Unreadable(reason) => {
            return Err(reason.clone());
        },
        Stored::Absent => {
            return Ok(None);
        },
    };
    let nonce = match base64_decode(envelope.nonce_b64.as_str()) {
        Ok(nonce) => nonce,
        Err(reason) => {
            return Err(concat("failed to decode cache nonce: ", reason.as_str()));
        },
    };
    if nonce.len() != NONCE_LEN {
        return Err("cache nonce had invalid length".to_owned());
    }
    let sealed = match base64_decode(envelope.ciphertext_b64.as_str()) {
        Ok(sealed) => sealed,
        Err(reason) => {
            return Err(concat("failed to decode encrypted cache payload: ", reason.as_str()));
        },
    };
    match open(key.as_slice(), nonce.as_slice(), sealed.as_slice()) {
        Ok(payload) => Ok(Some(payload)),
        Err(reason) => Err(concat("failed to decrypt session cache payload: ", reason.as_str())),
    }
}

/// After an identity was regenerated, asking for the identity again
/// changes nothing and returns the same summary; its verifying key is the
/// one that belongs to the seed the store holds.
pub proof fn lemma_regenerate_then_ensure(
    before: StoreRecord,
    regenerated_store: StoreRecord,
    after: StoreRecord,
    first_host: Option<Seq<char>>,
    second_host: Option<Seq<char>>,
    first: Result<SummaryRecord, Seq<char>>,
    second: Result<SummaryRecord, Seq<char>>,
)
    requires
        regenerated(before, regenerated_store, first_host, first),
        identity_summarised(regenerated_store, after, second_host, second),
    ensures
        after == regenerated_store,
        second == first,
        second is Ok,
        regenerated_store.identity matches Kept::Present(identity) && base64_bytes(
            identity.signing_key_b64,
        ) matches Ok(seed) && second == success(summary_for_seed(identity, seed)),
{
}

/// What was saved is what loading returns: after a successful save, a
/// load leaves the store as it is and returns the payload that was saved.
pub proof fn lemma_save_then_load(
    before: StoreRecord,
    saved: StoreRecord,
    after: StoreRecord,
    first_host: Option<Seq<char>>,
    second_host: Option<Seq<char>>,
    payload: Seq<u8>,
    save_result: Result<(), Seq<char>>,
    load_result: Result<Option<Seq<u8>>, Seq<char>>,
)
    requires
        cache_saved(before, saved, first_host, payload, save_result),
        save_result is Ok,
        cache_loaded(saved, after, second_host, load_result),
    ensures
        after == saved,
        load_result == success(Some(payload)),
{
    let identity = saved.identity->Present_0;
    let key = cache_key_of(identity)->Ok_0;
    let nonce = choose|nonce: Seq<u8>|
        nonce.len() == NONCE_LEN && saved.session_cache == Kept::Present(
            #[trigger] sealed_envelope(key, nonce, payload),
        );
    assert(saved.session_cache == Kept::Present(sealed_envelope(key, nonce, payload)));
}

/// A session cache that is there never loads as if it were not: loading
/// it gives its payload or an error.
pub proof fn lemma_present_cache_is_payload_or_error(
    before: StoreRecord,
    after: StoreRecord,
    hostname: Option<Seq<char>>,
    outcome: Result<Option<Seq<u8>>, Seq<char>>,
)
    requires
        cache_loaded(before, after, hostname, outcome),
    ensures
        outcome == success(None::<Seq<u8>>) <==> before.session_cache is Absent,
{
}

/// Key, nonce and sealed bytes of `envelope` are all there, but the cipher
/// does not open the envelope under the cache key of `identity`.
pub open spec fn stays_sealed(identity: IdentityRecord, envelope: EnvelopeRecord) -> bool {
    &&& cache_key_of(identity) matches Ok(key)
    &&& base64_bytes(envelope.nonce_b64) matches Ok(nonce)
    &&& nonce.len() == NONCE_LEN
    &&& base64_bytes(envelope.ciphertext_b64) matches Ok(sealed)
    &&& chacha20poly1305_opened(key, nonce, sealed) is None
}

/// A session cache that the cipher does not open under the key of the
/// identity in the store, as is to be expected of one that was sealed
/// under an identity since replaced, loads as an error: never as a
/// payload, never as an absent cache. The store stays as it is.
pub proof fn lemma_unopened_cache_is_error(
    before: StoreRecord,
    after: StoreRecord,
    identity: IdentityRecord,
    envelope: EnvelopeRecord,
    hostname: Option<Seq<char>>,
    outcome: Result<Option<Seq<u8>>, Seq<char>>,
)
    requires
        cache_loaded(before, after, hostname, outcome),
        before.identity == Kept::Present(identity),
        before.session_cache == Kept::Present(envelope),
        stays_sealed(identity, envelope),
    ensures
        after == before,
        outcome == failure::<Option<Seq<u8>>>(
            "failed to decrypt session cache payload: "@ + aead_failure(),
        ),
{
}

/// Deleting a profile that has nothing stored succeeds and changes
/// nothing, and so does deleting a second time.
pub proof fn lemma_delete_is_idempotent(
    before: StoreRecord,
    after: StoreRecord,
    again: StoreRecord,
    first: bool,
    second: bool,
)
    requires
        deleted(before, after, first),
        deleted(after, again, second),
    ensures
        first && second,
        again == after,
        before.identity is Absent && before.session_cache is Absent ==> after == before,
{
}

} // verus!
