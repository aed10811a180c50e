//! Authenticated encryption of a remembered password.
//!
//! A password is sealed with AES-256 in Galois/Counter mode under a fresh
//! 12-byte nonce and no associated data. The blob that is stored is the
//! base64 text of the nonce followed by the sealed bytes (ciphertext and
//! 16-byte tag).

use vstd::prelude::*;
use vstd::utf8::*;
use crate::error::StoreError;
use aes_gcm::aead::{Aead, KeyInit, Payload};
use aes_gcm::Aes256Gcm;
use base64::engine::general_purpose::STANDARD;
use base64::Engine;
use generic_array::GenericArray;
use rand::Rng;

verus! {

/// Bytes in an encryption key.
pub const KEY_LEN: usize = 32;

/// Bytes in a nonce.
pub const NONCE_LEN: usize = 12;

/// Bytes in an authentication tag.
pub const TAG_LEN: usize = 16;

/// The longest plaintext, in bytes, that AES-GCM seals.
pub const MAX_PLAINTEXT_LEN: u64 = 0x10_0000_0000;

/// What AES-256-GCM makes of a plaintext under a key and a nonce, with no
/// associated data: ciphertext followed by tag, or `None` where it refuses.
pub uninterp spec fn aes256_gcm_seal(key: Seq<u8>, nonce: Seq<u8>, plaintext: Seq<u8>) -> Option<Seq<u8>>;

/// What AES-256-GCM recovers from sealed bytes under a key and a nonce, with
/// no associated data: the plaintext, or `None` where the tag does not verify.
pub uninterp spec fn aes256_gcm_open(key: Seq<u8>, nonce: Seq<u8>, sealed: Seq<u8>) -> Option<Seq<u8>>;

/// The padded base64 text of a byte string, in the standard alphabet.
pub uninterp spec fn base64_text(bytes: Seq<u8>) -> Seq<char>;

/// The bytes that a padded base64 text in the standard alphabet stands for,
/// or `None` where the text is not such a text.
pub uninterp spec fn base64_bytes(text: Seq<char>) -> Option<Seq<u8>>;

/// Length of the padded base64 text of `n` bytes.
pub open spec fn base64_len(n: nat) -> nat {
    (n / 3) * 4 + if n % 3 > 0 { 4nat } else { 0nat }
}

/// The view of an optional byte vector.
pub open spec fn bytes_view(bytes: Option<Vec<u8>>) -> Option<Seq<u8>> {
    match bytes {
        Some(b) => Some(b@),
        None => None,
    }
}

/// The view of a result that holds a string.
pub open spec fn text_view(text: Result<String, StoreError>) -> Result<Seq<char>, StoreError> {
    match text {
        Ok(t) => Ok(t@),
        Err(e) => Err(e),
    }
}

/// Whether a password of `n` bytes can be sealed and framed on this machine:
/// the cipher takes it, and the blob and its base64 text can be allocated.
pub open spec fn sealable_len(n: nat) -> bool {
    n <= MAX_PLAINTEXT_LEN && n + NONCE_LEN + TAG_LEN <= usize::MAX / 2
}

/// Length of the blob for a password of `n` bytes: the base64 text of the
/// nonce, as many bytes of ciphertext, and the tag.
pub open spec fn blob_len(n: nat) -> nat {
    base64_len(NONCE_LEN as nat + n + TAG_LEN as nat)
}

/// The nonce followed by the sealed bytes.
pub open spec fn framed(nonce: Seq<u8>, sealed: Seq<u8>) -> Seq<u8> {
    nonce + sealed
}

/// The blob for a password under a key and a nonce.
pub open spec fn encrypt_spec(key: Seq<u8>, nonce: Seq<u8>, password: Seq<char>) -> Result<Seq<char>, StoreError> {
    let plaintext = encode_utf8(password);
    if !sealable_len(plaintext.len()) {
        Err(StoreError::Encryption)
    } else {
        match aes256_gcm_seal(key, nonce, plaintext) {
            Some(sealed) => Ok(base64_text(framed(nonce, sealed))),
            None => Err(StoreError::Encryption),
        }
    }
}

/// The nonce that leads a blob, where the blob is base64 text of at least
/// 12 bytes.
pub open spec fn blob_nonce(blob: Seq<char>) -> Option<Seq<u8>> {
    match base64_bytes(blob) {
        Some(combined) => if combined.len() >= NONCE_LEN {
            Some(combined.subrange(0, NONCE_LEN as int))
        } else {
            None
        },
        None => None,
    }
}

/// Whether `blob` is the blob for the password under the key and some nonce
/// of 12 bytes, which leads it.
pub open spec fn sealed_under_some_nonce(key: Seq<u8>, password: Seq<char>, blob: Seq<char>) -> bool {
    exists|nonce: Seq<u8>|
        nonce.len() == NONCE_LEN && blob_nonce(blob) == Some(nonce) && #[trigger] encrypt_spec(
            key,
            nonce,
            password,
        ) == Ok::<Seq<char>, StoreError>(blob)
}

/// The password that opened bytes stand for.
pub open spec fn password_spec(opened: Option<Seq<u8>>) -> Result<Seq<char>, StoreError> {
    match opened {
        None => Err(StoreError::Authentication),
        Some(plaintext) => if valid_utf8(plaintext) {
            Ok(decode_utf8(plaintext))
        } else {
            Err(StoreError::Encoding)
        },
    }
}

/// The password that a blob holds under a key, or the reason why it yields
/// none.
pub open spec fn decrypt_spec(key: Seq<u8>, blob: Seq<char>) -> Result<Seq<char>, StoreError> {
    match base64_bytes(blob) {
        None => Err(StoreError::Format),
        Some(combined) => if combined.len() < NONCE_LEN {
            Err(StoreError::Format)
        } else {
            password_spec(
                aes256_gcm_open(
                    key,
                    combined.subrange(0, NONCE_LEN as int),
                    combined.subrange(NONCE_LEN as int, combined.len() as int),
                ),
            )
        },
    }
}

/// Calls `Aes256Gcm::new` and `Aead::encrypt` of the `aes-gcm` crate. The
/// contract names the result and claims three things of it: the cipher
/// refuses exactly the plaintexts longer than 2^36 bytes; what it returns is
/// 16 bytes longer than the plaintext; and opening the result under the same
/// key and nonce gives the plaintext back.
#[verifier::external_body]
fn gcm_seal(key: &[u8; 32], nonce: &[u8; 12], plaintext: &[u8]) -> (sealed: Option<Vec<u8>>)
    requires
        plaintext@.len() + TAG_LEN <= usize::MAX / 2,
    ensures
        bytes_view(sealed) == aes256_gcm_seal(key@, nonce@, plaintext@),
        sealed is Some <==> plaintext@.len() <= MAX_PLAINTEXT_LEN,
        sealed matches Some(s) ==> s@.len() == plaintext@.len() + TAG_LEN,
        sealed matches Some(s) ==> aes256_gcm_open(key@, nonce@, s@) == Some(plaintext@),
{
    let cipher = Aes256Gcm::new(GenericArray::from_slice(key));
    match cipher.encrypt(GenericArray::from_slice(nonce), Payload::from(plaintext)) {
        Ok(s) => Some(s),
        Err(_) => None,
    }
}

/// Calls `Aes256Gcm::new` and `Aead::decrypt` of the `aes-gcm` crate. The
/// contract names the result and claims two things of it: fewer than 16
/// bytes are never opened, and a plaintext that comes back is 16 bytes
/// shorter than what was handed in.
#[verifier::external_body]
fn gcm_open(key: &[u8; 32], nonce: &[u8; 12], sealed: &[u8]) -> (opened: Option<Vec<u8>>)
    ensures
        bytes_view(opened) == aes256_gcm_open(key@, nonce@, sealed@),
        sealed@.len() < TAG_LEN ==> opened is None,
        opened matches Some(p) ==> p@.len() + TAG_LEN == sealed@.len(),
{
    let cipher = Aes256Gcm::new(GenericArray::from_slice(key));
    match cipher.decrypt(GenericArray::from_slice(nonce), Payload::from(sealed)) {
        Ok(p) => Some(p),
        Err(_) => None,
    }
}

/// Calls `Engine::encode` of the `base64` crate on its `STANDARD` engine,
/// which panics where the text's length does not fit in `usize`. The contract
/// names the result, gives its length, and claims that decoding it gives the
/// bytes back.
#[verifier::external_body]
fn base64_encode(bytes: &[u8]) -> (text: String)
    requires
        base64_len(bytes@.len()) <= usize::MAX,
    ensures
        text@ == base64_text(bytes@),
        text@.len() == base64_len(bytes@.len()),
        base64_bytes(text@) == Some(bytes@),
{
    STANDARD.encode(bytes)
}

/// Calls `Engine::decode` of the `base64` crate on its `STANDARD` engine.
/// The contract names the result.
#[verifier::external_body]
fn base64_decode(text: &str) -> (bytes: Option<Vec<u8>>)
    ensures
        bytes_view(bytes) == base64_bytes(text@),
{
    match STANDARD.decode(text) {
        Ok(b) => Some(b),
        Err(_) => None,
    }
}

/// Calls `String::from_utf8` of std: the string that the bytes encode, or
/// `None` exactly where they are not valid UTF-8.
#[verifier::external_body]
fn string_from_utf8(bytes: Vec<u8>) -> (text: Option<String>)
    ensures
        text is Some <==> valid_utf8(bytes@),
        text matches Some(t) ==> t@ == decode_utf8(bytes@),
{
    match String::from_utf8(bytes) {
        Ok(t) => Some(t),
        Err(_) => None,
    }
}

/// Calls `Rng::gen` of the `rand` crate on the thread's generator, for 12
/// bytes. Nothing is claimed of them.
#[verifier::external_body]
fn random_nonce() -> (nonce: [u8; 12]) {
    let mut rng = rand::thread_rng();
    rng.gen()
}

/// Puts the nonce in front of the sealed bytes.
pub fn frame_blob(nonce: &[u8; 12], sealed: &Vec<u8>) -> (combined: Vec<u8>)
    ensures
        combined@ == framed(nonce@, sealed@),
{
    let mut combined: Vec<u8> = Vec::new();
    let mut i: usize = 0;
    while i < NONCE_LEN
        invariant
            i <= NONCE_LEN,
            combined@ == nonce@.subrange(0, i as int),
        decreases NONCE_LEN - i,
    {
        combined.push(nonce[i]);
        i += 1;
        assert(combined@ =~= nonce@.subrange(0, i as int));
    }
    assert(nonce@.subrange(0, NONCE_LEN as int) =~= nonce@);
    let mut j: usize = 0;
    while j < sealed.len()
        invariant
            j <= sealed@.len(),
            combined@ == nonce@ + sealed@.subrange(0, j as int),
        decreases sealed@.len() - j,
    {
        combined.push(sealed[j]);
        j += 1;
        assert(combined@ =~= nonce@ + sealed@.subrange(0, j as int));
    }
    assert(sealed@.subrange(0, sealed@.len() as int) =~= sealed@);
    combined
}

/// Splits decoded bytes into the nonce and the sealed bytes. Fewer than 12
/// bytes hold no nonce: that is a `Format` error.
pub fn split_blob(combined: &Vec<u8>) -> (parts: Result<([u8; 12], Vec<u8>), StoreError>)
    ensures
        combined@.len() < NONCE_LEN ==> parts == Err::<([u8; 12], Vec<u8>), StoreError>(StoreError::Format),
        combined@.len() >= NONCE_LEN ==> parts is Ok,
        parts matches Ok((nonce, sealed)) ==> nonce@ == combined@.subrange(0, NONCE_LEN as int),
        parts matches Ok((nonce, sealed)) ==> sealed@ == combined@.subrange(
            NONCE_LEN as int,
            combined@.len() as int,
        ),
{
    if combined.len() < NONCE_LEN {
        return Err(StoreError::Format);
    }
    let mut nonce: [u8; 12] = [0u8; 12];
    let mut i: usize = 0;
    while i < NONCE_LEN
        invariant
            i <= NONCE_LEN,
            combined@.len() >= NONCE_LEN,
            forall|k: int| 0 <= k < i ==> nonce@[k] == combined@[k],
        decreases NONCE_LEN - i,
    {
        nonce[i] = combined[i];
        i += 1;
    }
    assert(nonce@ =~= combined@.subrange(0, NONCE_LEN as int));
    let mut sealed: Vec<u8> = Vec::with_capacity(combined.len() - NONCE_LEN);
    let mut j: usize = NONCE_LEN;
    while j < combined.len()
        invariant
            NONCE_LEN <= j <= combined@.len(),
            sealed@ == combined@.subrange(NONCE_LEN as int, j as int),
        decreases combined@.len() - j,
    {
        sealed.push(combined[j]);
        j += 1;
        assert(sealed@ =~= combined@.subrange(NONCE_LEN as int, j as int));
    }
    Ok((nonce, sealed))
}

/// Turns what the cipher opened into the password: no plaintext means that
/// the tag did not verify; a plaintext must be UTF-8.
pub fn password_from_opened(opened: Option<Vec<u8>>) -> (password: Result<String, StoreError>)
    ensures
        text_view(password) == password_spec(bytes_view(opened)),
{
    match opened {
        None => Err(StoreError::Authentication),
        Some(plaintext) => match string_from_utf8(plaintext) {
            Some(text) => Ok(text),
            None => Err(StoreError::Encoding),
        },
    }
}

/// Seals a password under the key and the given nonce and returns the blob.
/// The nonce must be one that was never used with this key.
pub fn encrypt_with_nonce(key: &[u8; 32], nonce: &[u8; 12], password: &str) -> (blob: Result<String, StoreError>)
    ensures
        text_view(blob) == encrypt_spec(key@, nonce@, password@),
        blob is Ok <==> sealable_len(encode_utf8(password@).len()),
        blob matches Ok(b) ==> b@.len() == blob_len(encode_utf8(password@).len()),
        blob matches Ok(b) ==> blob_nonce(b@) == Some(nonce@),
        blob matches Ok(b) ==> decrypt_spec(key@, b@) == Ok::<Seq<char>, StoreError>(password@),
{
    let plaintext = password.as_bytes();
    let n: usize = plaintext.len();
    if n as u64 > MAX_PLAINTEXT_LEN || n > usize::MAX / 2 - (NONCE_LEN + TAG_LEN) {
        return Err(StoreError::Encryption);
    }
    match gcm_seal(key, nonce, plaintext) {
        None => Err(StoreError::Encryption),
        Some(sealed) => {
            let combined = frame_blob(nonce, &sealed);
            let blob = base64_encode(combined.as_slice());
            proof {
                let c = combined@;
                assert(c.subrange(0, NONCE_LEN as int) =~= nonce@);
                assert(c.subrange(NONCE_LEN as int, c.len() as int) =~= sealed@);
                encode_utf8_valid_utf8(password@);
                encode_utf8_decode_utf8(password@);
            }
            Ok(blob)
        },
    }
}

/// Seals a password under the key with a nonce drawn for this call.
pub fn encrypt_password(key: &[u8; 32], password: &str) -> (blob: Result<String, StoreError>)
    ensures
        blob is Ok <==> sealable_len(encode_utf8(password@).len()),
        blob matches Err(e) ==> e == StoreError::Encryption,
        blob matches Ok(b) ==> sealed_under_some_nonce(key@, password@, b@),
        blob matches Ok(b) ==> b@.len() == blob_len(encode_utf8(password@).len()),
        blob matches Ok(b) ==> decrypt_spec(key@, b@) == Ok::<Seq<char>, StoreError>(password@),
{
    let nonce = random_nonce();
    encrypt_with_nonce(key, &nonce, password)
}

/// Recovers the password from a blob: `Format` where the blob is not base64
/// or holds fewer than 12 bytes, `Authentication` where the tag does not
/// verify, `Encoding` where the plaintext is not UTF-8.
pub fn decrypt_password(key: &[u8; 32], encrypted: &str) -> (password: Result<String, StoreError>)
    ensures
        text_view(password) == decrypt_spec(key@, encrypted@),
{
    match base64_decode(encrypted) {
        None => Err(StoreError::Format),
        Some(combined) => match split_blob(&combined) {
            Err(e) => Err(e),
            Ok((nonce, sealed)) => password_from_opened(gcm_open(key, &nonce, sealed.as_slice())),
        },
    }
}

/// Nonce discipline. Two blobs that lead with different nonces are
/// different blobs: sealing one password twice gives one blob twice only
/// where the same nonce was drawn twice.
pub proof fn lemma_fresh_nonce_gives_fresh_blob(first: Seq<char>, second: Seq<char>)
    requires
        blob_nonce(first) is Some,
        blob_nonce(second) is Some,
        blob_nonce(first) != blob_nonce(second),
    ensures
        first != second,
{
}

} // verus!
