//! Everything this library takes on trust from outside crates and from std:
//! the outside types it carries, the names it gives to results that only the
//! outside code can compute, and the small wrappers that make the calls.
use vstd::prelude::*;
use vstd::utf8::{decode_utf8, is_ascii_chars, valid_utf8};

verus! {

/// argon2's error type, carried only to be mapped to the library's own.
#[verifier::external_type_specification]
#[verifier::external_body]
pub struct ExArgon2Error(argon2::Error);

/// The 32-byte key that Argon2id, version 0x13, derives from a password and a
/// salt with `m_cost` KiB of memory, `t_cost` passes and `p_cost` lanes.
pub uninterp spec fn argon2id_key(
    m_cost: u32,
    t_cost: u32,
    p_cost: u32,
    password: Seq<u8>,
    salt: Seq<u8>,
) -> Seq<u8>;

/// Whether argon2's input checks accept a password and a salt: at most
/// `u32::MAX` bytes of password, and between 8 and `u32::MAX` bytes of salt.
pub open spec fn kdf_accepts(password: Seq<u8>, salt: Seq<u8>) -> bool {
    &&& password.len() <= 0xffff_ffff
    &&& 8 <= salt.len() <= 0xffff_ffff
}

/// Relies on argon2's `Params::new`, which accepts every cost triple that
/// `requires` admits, and `Argon2::hash_password_into`, which fails only on
/// the length checks of `kdf_accepts` and otherwise fills the 32-byte output.
#[verifier::external_body]
pub(crate) fn argon2id(m_cost: u32, t_cost: u32, p_cost: u32, password: &[u8], salt: &[u8]) -> (r:
    Result<Vec<u8>, argon2::Error>)
    requires
        1 <= p_cost <= 8,
        1 <= t_cost,
        8 * p_cost <= m_cost,
    ensures
        r is Ok <==> kdf_accepts(password@, salt@),
        r matches Ok(k) ==> k@ == argon2id_key(m_cost, t_cost, p_cost, password@, salt@) && k@.len()
            == 32,
{
    let params = argon2::Params::new(m_cost, t_cost, p_cost, Some(32))?;
    let hasher = argon2::Argon2::new(argon2::Algorithm::Argon2id, argon2::Version::V0x13, params);
    let mut key = vec![0u8; 32];
    hasher.hash_password_into(password, salt, &mut key)?;
    Ok(key)
}

/// base64's decoding error, carried only to be mapped to the library's own.
#[verifier::external_type_specification]
#[verifier::external_body]
pub struct ExDecodeError(base64::DecodeError);

/// The text that base64's `STANDARD` engine (standard alphabet, with padding)
/// writes for a byte string.
pub uninterp spec fn base64_text(bytes: Seq<u8>) -> Seq<char>;

/// The bytes that base64's `STANDARD` engine reads from a text, or `None`
/// where it refuses the text.
pub uninterp spec fn base64_bytes(text: Seq<char>) -> Option<Seq<u8>>;

/// Relies on base64's `Engine::encode` with the `STANDARD` engine, whose
/// output the same engine decodes back to the input bytes.
#[verifier::external_body]
pub(crate) fn base64_encode(bytes: &[u8]) -> (r: String)
    ensures
        r@ == base64_text(bytes@),
        base64_bytes(r@) == Some(bytes@),
{
    base64::Engine::encode(&base64::engine::general_purpose::STANDARD, bytes)
}

/// Relies on base64's `Engine::decode` with the `STANDARD` engine.
#[verifier::external_body]
pub(crate) fn base64_decode(text: &str) -> (r: Result<Vec<u8>, base64::DecodeError>)
    ensures
        r matches Ok(d) ==> base64_bytes(text@) == Some(d@),
        r is Err ==> base64_bytes(text@) is None,
{
    base64::Engine::decode(&base64::engine::general_purpose::STANDARD, text)
}

/// The SHA-256 digest of a byte string.
pub uninterp spec fn sha256_digest(data: Seq<u8>) -> Seq<u8>;

/// Relies on sha2's `Sha256::digest`: a 32-byte digest.
#[verifier::external_body]
pub(crate) fn sha256(data: &[u8]) -> (r: Vec<u8>)
    ensures
        r@ == sha256_digest(data@),
        r@.len() == 32,
{
    <sha2::Sha256 as sha2::Digest>::digest(data).to_vec()
}

/// The AEAD error of chacha20poly1305, carried only to be mapped to the
/// library's own.
#[verifier::external_type_specification]
#[verifier::external_body]
pub struct ExAeadError(chacha20poly1305::Error);

/// The XChaCha20-Poly1305 ciphertext, tag included, of a plaintext under a
/// 32-byte key and a 24-byte nonce, with no associated data.
pub uninterp spec fn xchacha_sealed(key: Seq<u8>, nonce: Seq<u8>, plaintext: Seq<u8>) -> Seq<u8>;

/// Whether chacha20poly1305 takes a message of `len` bytes: fewer than
/// `u32::MAX` blocks of 64 bytes.
pub open spec fn aead_accepts_len(len: int) -> bool {
    len / 64 < 0xffff_ffff
}

/// The plaintext that XChaCha20-Poly1305 recovers from a ciphertext under a
/// key and a nonce, or `None` where the tag does not verify.
pub uninterp spec fn xchacha_opened(key: Seq<u8>, nonce: Seq<u8>, ciphertext: Seq<u8>) -> Option<
    Seq<u8>,
>;

/// Relies on chacha20poly1305's `XChaCha20Poly1305::new` and `Aead::encrypt`,
/// which fails only when the message is too long for the block counter, and
/// whose output `Aead::decrypt` opens again under the same key and nonce.
#[verifier::external_body]
pub(crate) fn xchacha_seal(key: &[u8], nonce: &[u8], plaintext: &[u8]) -> (r: Result<
    Vec<u8>,
    chacha20poly1305::Error,
>)
    requires
        key@.len() == 32,
        nonce@.len() == 24,
    ensures
        r is Ok <==> aead_accepts_len(plaintext@.len() as int),
        r matches Ok(c) ==> c@ == xchacha_sealed(key@, nonce@, plaintext@) && xchacha_opened(
            key@,
            nonce@,
            c@,
        ) == Some(plaintext@),
{
    let cipher = <chacha20poly1305::XChaCha20Poly1305 as chacha20poly1305::KeyInit>::new(
        chacha20poly1305::Key::from_slice(key),
    );
    chacha20poly1305::aead::Aead::encrypt(&cipher, chacha20poly1305::XNonce::from_slice(nonce), plaintext)
}

/// Relies on chacha20poly1305's `Aead::decrypt`, which returns the plaintext
/// only when the tag verifies.
#[verifier::external_body]
pub(crate) fn xchacha_open(key: &[u8], nonce: &[u8], ciphertext: &[u8]) -> (r: Result<
    Vec<u8>,
    chacha20poly1305::Error,
>)
    requires
        key@.len() == 32,
        nonce@.len() == 24,
    ensures
        r matches Ok(p) ==> xchacha_opened(key@, nonce@, ciphertext@) == Some(p@),
        r is Err ==> xchacha_opened(key@, nonce@, ciphertext@) is None,
{
    let cipher = <chacha20poly1305::XChaCha20Poly1305 as chacha20poly1305::KeyInit>::new(
        chacha20poly1305::Key::from_slice(key),
    );
    chacha20poly1305::aead::Aead::decrypt(&cipher, chacha20poly1305::XNonce::from_slice(nonce), ciphertext)
}

/// Relies on rand's `thread_rng` and `RngCore::fill_bytes`: `len` bytes from a
/// cryptographically secure generator. Nothing is known of their values.
#[verifier::external_body]
pub(crate) fn random_bytes(len: usize) -> (r: Vec<u8>)
    ensures
        r@.len() == len,
{
    let mut bytes = vec![0u8; len];
    rand::RngCore::fill_bytes(&mut rand::thread_rng(), &mut bytes);
    bytes
}

/// Relies on argon2's `SaltString::generate` fed by rand's `thread_rng`: 16
/// random bytes in unpadded B64, which is 22 ASCII characters.
#[verifier::external_body]
pub(crate) fn random_salt() -> (r: String)
    ensures
        r@.len() == 22,
        is_ascii_chars(r@),
{
    argon2::password_hash::SaltString::generate(&mut rand::thread_rng()).as_str().to_owned()
}

/// nostr's error type, carried only to be mapped to the library's own.
#[verifier::external_type_specification]
#[verifier::external_body]
pub struct ExNostrError(nostr::error::Error);

/// The public identifier, as lowercase hex, of the key that a bech32 `nsec`
/// text encodes; `None` where the text is no valid secret key.
pub uninterp spec fn nostr_public_id(secret: Seq<char>) -> Option<Seq<char>>;

/// Relies on nostr's `SecretKey::from_bech32`, which validates the text, then
/// `Keys::new`, `Keys::public_key` and `PublicKey::to_hex`.
#[verifier::external_body]
pub(crate) fn public_id_of(secret: &str) -> (r: Result<String, nostr::error::Error>)
    ensures
        r is Ok <==> nostr_public_id(secret@) is Some,
        r matches Ok(id) ==> nostr_public_id(secret@) == Some(id@),
{
    let key = <nostr::key::SecretKey as nostr::nips::nip19::FromBech32>::from_bech32(secret)?;
    Ok(nostr::key::Keys::new(key).public_key().to_hex())
}

/// Relies on `String::from_utf8`: it succeeds exactly on valid UTF-8; on
/// failure the bytes are handed back by `FromUtf8Error::into_bytes`.
#[verifier::external_body]
pub(crate) fn string_from_utf8(bytes: Vec<u8>) -> (r: Result<String, Vec<u8>>)
    ensures
        r is Ok <==> valid_utf8(bytes@),
        r matches Ok(s) ==> s@ == decode_utf8(bytes@),
        r matches Err(b) ==> b@ == bytes@,
{
    String::from_utf8(bytes).map_err(|e| e.into_bytes())
}

/// Relies on zeroize's `Zeroize` for `Vec<u8>`: every byte, spare capacity
/// included, is overwritten with zero and the vector is left empty.
#[verifier::external_body]
pub(crate) fn wipe_bytes(buf: &mut Vec<u8>)
    ensures
        final(buf)@.len() == 0,
{
    zeroize::Zeroize::zeroize(buf)
}

/// Relies on zeroize's `Zeroize` for `String`: its bytes are overwritten with
/// zero and the string is left empty.
#[verifier::external_body]
pub(crate) fn wipe_text(text: &mut String)
    ensures
        final(text)@.len() == 0,
{
    zeroize::Zeroize::zeroize(text)
}

} // verus!
