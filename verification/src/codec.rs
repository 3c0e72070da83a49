//! The cryptographic and encoding primitives the identity store builds on.
//!
//! Every function in this module hands its arguments to an outside crate
//! and is believed, not proved. What each one returns is given a name, so
//! that the verified code built on top can state exactly which bytes it
//! stores and returns.

use base64::Engine;
use chacha20poly1305::aead::rand_core::RngCore;
use chacha20poly1305::aead::{Aead, KeyInit, OsRng};
use chacha20poly1305::{ChaCha20Poly1305, Key, Nonce};
use ed25519_dalek::SigningKey;
use sha2::{Digest, Sha256};
use vstd::prelude::*;

verus! {

/// Length in bytes of an Ed25519 secret seed and of its verifying key.
pub const KEY_LEN: usize = 32;

/// Length in bytes of a ChaCha20-Poly1305 nonce.
pub const NONCE_LEN: usize = 12;

/// Length in bytes of the Poly1305 tag that sealing appends.
pub const TAG_LEN: usize = 16;

/// The padded standard-alphabet base64 text of `bytes`.
pub uninterp spec fn base64_text(bytes: Seq<u8>) -> Seq<char>;

/// What decoding `text` as padded standard-alphabet base64 gives: the
/// bytes, or the decoder's description of what is wrong with `text`.
pub uninterp spec fn base64_bytes(text: Seq<char>) -> Result<Seq<u8>, Seq<char>>;

/// The SHA-256 digest of `data`.
pub uninterp spec fn sha256(data: Seq<u8>) -> Seq<u8>;

/// The Ed25519 verifying key that belongs to the secret `seed`.
pub uninterp spec fn ed25519_verifying_key(seed: Seq<u8>) -> Seq<u8>;

/// The ChaCha20-Poly1305 ciphertext and tag for `plaintext` under `key`
/// and `nonce`, with no associated data.
pub uninterp spec fn chacha20poly1305_sealed(
    key: Seq<u8>,
    nonce: Seq<u8>,
    plaintext: Seq<u8>,
) -> Seq<u8>;

/// The plaintext that `sealed` authenticates to under `key` and `nonce`,
/// or `None` where the tag does not match.
pub uninterp spec fn chacha20poly1305_opened(
    key: Seq<u8>,
    nonce: Seq<u8>,
    sealed: Seq<u8>,
) -> Option<Seq<u8>>;

/// The JSON string literal for `text`: quoted, with the escapes JSON asks for.
pub uninterp spec fn json_string(text: Seq<char>) -> Seq<char>;

/// The message that an AEAD failure displays as.
pub open spec fn aead_failure() -> Seq<char> {
    "aead::Error"@
}

/// Whether a plaintext of `len` bytes is short enough for one
/// ChaCha20-Poly1305 message.
pub open spec fn sealable_len(len: nat) -> bool {
    len / 64 < 0xffff_ffff
}

/// `base64::engine::general_purpose::STANDARD.encode`. The text is a
/// function of the bytes. The encoder panics only where the encoded length
/// does not fit in `usize`, and no slice is that long: a slice never holds
/// more than `isize::MAX` bytes.
#[verifier::external_body]
pub(crate) fn base64_encode(bytes: &[u8]) -> (text: String)
    ensures
        text@ == base64_text(bytes@),
{
    base64::engine::general_purpose::STANDARD.encode(bytes)
}

/// `text` is the encoding of no bytes but `bytes`.
pub open spec fn encodes_at_most(text: Seq<char>, bytes: Seq<u8>) -> bool {
    forall|encoded: Seq<u8>| text == base64_text(encoded) ==> encoded == bytes
}

/// `text` is the encoding of no bytes at all.
pub open spec fn encodes_nothing(text: Seq<char>) -> bool {
    forall|encoded: Seq<u8>| text != base64_text(encoded)
}

/// `base64::engine::general_purpose::STANDARD.decode`. The outcome is a
/// function of the text, and text that the same engine encoded decodes to
/// the bytes it was made from. A decoding error is handed back as the
/// message it displays.
#[verifier::external_body]
pub(crate) fn base64_decode(text: &str) -> (r: Result<Vec<u8>, String>)
    ensures
        match r {
            Ok(bytes) => {
                &&& base64_bytes(text@) matches Ok(decoded) && decoded == bytes@
                &&& encodes_at_most(text@, bytes@)
            },
            Err(message) => {
                &&& base64_bytes(text@) matches Err(reason) && reason == message@
                &&& encodes_nothing(text@)
            },
        },
{
    match base64::engine::general_purpose::STANDARD.decode(text) {
        Ok(bytes) => Ok(bytes),
        Err(err) => Err(err.to_string()),
    }
}

/// `sha2::Sha256::digest`. The digest is a function of the data and is 32
/// bytes long.
#[verifier::external_body]
pub(crate) fn sha256_digest(data: &[u8]) -> (digest: Vec<u8>)
    ensures
        digest@ == sha256(data@),
        digest@.len() == KEY_LEN,
{
    Sha256::digest(data).to_vec()
}

/// `ed25519_dalek::SigningKey::generate` with the operating system's
/// random source. Nothing is known of the seed but its length.
#[verifier::external_body]
pub(crate) fn generate_signing_seed() -> (seed: Vec<u8>)
    ensures
        seed@.len() == KEY_LEN,
{
    SigningKey::generate(&mut OsRng).to_bytes().to_vec()
}

/// `ed25519_dalek::SigningKey::from_bytes(..).verifying_key()`. The
/// verifying key is a function of the 32-byte seed and is 32 bytes long.
#[verifier::external_body]
pub(crate) fn verifying_key_of(seed: &[u8]) -> (key: Vec<u8>)
    requires
        seed@.len() == KEY_LEN,
    ensures
        key@ == ed25519_verifying_key(seed@),
        key@.len() == KEY_LEN,
{
    let mut secret = [0u8; 32];
    secret.copy_from_slice(seed);
    SigningKey::from_bytes(&secret).verifying_key().to_bytes().to_vec()
}

/// A lower-case hexadecimal digit.
pub open spec fn is_lower_hex(c: char) -> bool {
    ('0' <= c <= '9') || ('a' <= c <= 'f')
}

/// `text` has the shape of a UUID in its hyphenated form: 36 characters,
/// hyphens after the 8th, 12th, 16th and 20th digit, lower-case
/// hexadecimal digits elsewhere.
pub open spec fn is_uuid_text(text: Seq<char>) -> bool {
    &&& text.len() == 36
    &&& forall|i: int|
        0 <= i < 36 ==> if i == 8 || i == 13 || i == 18 || i == 23 {
            #[trigger] text[i] == '-'
        } else {
            is_lower_hex(#[trigger] text[i])
        }
}

/// `uuid::Uuid::new_v4`, in its text form. The identifier is random;
/// every outcome has the hyphenated lower-case shape.
#[verifier::external_body]
pub(crate) fn new_wayfair_id() -> (id: String)
    ensures
        is_uuid_text(id@),
{
    uuid::Uuid::new_v4().to_string()
}

/// `OsRng.fill_bytes` on a fresh buffer of `len` bytes. Nothing is known
/// of the bytes but how many there are.
#[verifier::external_body]
pub(crate) fn random_bytes(len: usize) -> (bytes: Vec<u8>)
    ensures
        bytes@.len() == len,
{
    let mut bytes = vec![0u8; len];
    OsRng.fill_bytes(&mut bytes);
    bytes
}

/// `ChaCha20Poly1305::encrypt` with no associated data. Sealing succeeds
/// exactly when the plaintext is short enough; the result is then a
/// function of key, nonce and plaintext, and is one tag longer than the
/// plaintext. A failure is handed back as the message it displays.
#[verifier::external_body]
pub(crate) fn seal(key: &[u8], nonce: &[u8], plaintext: &[u8]) -> (r: Result<Vec<u8>, String>)
    requires
        key@.len() == KEY_LEN,
        nonce@.len() == NONCE_LEN,
    ensures
        r is Ok <==> sealable_len(plaintext@.len()),
        match r {
            Ok(sealed) => {
                &&& sealed@ == chacha20poly1305_sealed(key@, nonce@, plaintext@)
                &&& sealed@.len() == plaintext@.len() + TAG_LEN
            },
            Err(message) => message@ == aead_failure(),
        },
{
    let cipher = ChaCha20Poly1305::new(Key::from_slice(key));
    match cipher.encrypt(Nonce::from_slice(nonce), plaintext) {
        Ok(sealed) => Ok(sealed),
        Err(err) => Err(err.to_string()),
    }
}

/// `sealed` is what sealing gives for no plaintext but `plaintext`, under
/// `key` and `nonce`.
pub open spec fn seals_at_most(
    key: Seq<u8>,
    nonce: Seq<u8>,
    sealed: Seq<u8>,
    plaintext: Seq<u8>,
) -> bool {
    forall|plain: Seq<u8>|
        sealable_len(plain.len()) && sealed == chacha20poly1305_sealed(key, nonce, plain)
            ==> plain == plaintext
}

/// `sealed` is what sealing gives for no plaintext at all, under `key` and
/// `nonce`.
pub open spec fn seals_nothing(key: Seq<u8>, nonce: Seq<u8>, sealed: Seq<u8>) -> bool {
    forall|plain: Seq<u8>|
        sealable_len(plain.len()) ==> sealed != chacha20poly1305_sealed(key, nonce, plain)
}

/// `ChaCha20Poly1305::decrypt` with no associated data. The outcome is a
/// function of key, nonce and sealed bytes, and what was sealed under the
/// same key and nonce opens to the plaintext it was made from. A failure
/// is handed back as the message it displays.
#[verifier::external_body]
pub(crate) fn open(key: &[u8], nonce: &[u8], sealed: &[u8]) -> (r: Result<Vec<u8>, String>)
    requires
        key@.len() == KEY_LEN,
        nonce@.len() == NONCE_LEN,
    ensures
        match r {
            Ok(plaintext) => {
                &&& chacha20poly1305_opened(key@, nonce@, sealed@) == Some(plaintext@)
                &&& seals_at_most(key@, nonce@, sealed@, plaintext@)
            },
            Err(message) => {
                &&& chacha20poly1305_opened(key@, nonce@, sealed@) is None
                &&& seals_nothing(key@, nonce@, sealed@)
                &&& message@ == aead_failure()
            },
        },
{
    let cipher = ChaCha20Poly1305::new(Key::from_slice(key));
    match cipher.decrypt(Nonce::from_slice(nonce), sealed) {
        Ok(plaintext) => Ok(plaintext),
        Err(err) => Err(err.to_string()),
    }
}

/// `serde_json::Error`. It is only passed on, or turned into its text.
#[verifier::external_type_specification]
#[verifier::external_body]
pub struct ExJsonError(serde_json::Error);

/// `serde_json::to_string` on a string slice. Writing a string into memory
/// cannot fail, so the literal always comes back, and it is a function of
/// the text.
#[verifier::external_body]
pub(crate) fn json_string_literal(text: &str) -> (r: Result<String, serde_json::Error>)
    ensures
        r is Ok,
        r->Ok_0@ == json_string(text@),
{
    serde_json::to_string(text)
}

/// `serde_json::Value`, a JSON document of any shape. Payloads are
/// carried as such and never looked into.
#[verifier::external_type_specification]
#[verifier::external_body]
pub struct ExJsonValue(serde_json::Value);

/// The compact JSON text of a value, as `Display` writes it.
pub uninterp spec fn json_text(value: serde_json::Value) -> Seq<char>;

/// `serde_json::Value`'s `Display`: the compact JSON text, a function of
/// the value.
#[verifier::external_body]
pub(crate) fn json_value_text(value: &serde_json::Value) -> (text: String)
    ensures
        text@ == json_text(*value),
{
    value.to_string()
}

/// The `Display` text of a `serde_json::Error`. Nothing is promised of it.
#[verifier::external_body]
pub(crate) fn json_error_text(error: &serde_json::Error) -> (text: String) {
    error.to_string()
}

} // verus!
