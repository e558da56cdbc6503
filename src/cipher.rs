//! Authenticated encryption of a secret under a derived key, with a fresh
//! random nonce for every sealing; nonce and ciphertext are stored as base64.
use vstd::prelude::*;
use vstd::utf8::{decode_utf8, encode_utf8, valid_utf8};

use crate::error::{text_outcome, KeystoreError};
use crate::external::{
    aead_accepts_len, base64_bytes, base64_decode, base64_encode, base64_text, random_bytes,
    string_from_utf8, wipe_bytes, xchacha_open, xchacha_opened, xchacha_seal, xchacha_sealed,
};

verus! {

/// Length of the random nonce of every sealing, in bytes.
pub const NONCE_LEN: usize = 24;

/// Whether the cipher takes the UTF-8 bytes of this secret.
pub open spec fn secret_fits(secret: Seq<char>) -> bool {
    aead_accepts_len(encode_utf8(secret).len() as int)
}

/// The stored texts, nonce then ciphertext, of a secret sealed under `key`
/// with the nonce bytes `nonce`.
pub open spec fn sealed_text(key: Seq<u8>, nonce: Seq<u8>, secret: Seq<char>) -> (
    Seq<char>,
    Seq<char>,
) {
    (base64_text(nonce), base64_text(xchacha_sealed(key, nonce, encode_utf8(secret))))
}

/// What opening the stored texts under `key` gives: the secret, or why not.
/// Texts that are no base64, or a nonce of the wrong length, are a format
/// error; a tag that does not verify is an authentication failure; a
/// plaintext that is no UTF-8 cannot be a secret.
pub open spec fn decrypted(key: Seq<u8>, nonce_text: Seq<char>, ciphertext_text: Seq<char>) -> Result<
    Seq<char>,
    KeystoreError,
> {
    match base64_bytes(nonce_text) {
        None => Err(KeystoreError::FormatError),
        Some(nonce) => if nonce.len() != NONCE_LEN {
            Err(KeystoreError::FormatError)
        } else {
            match base64_bytes(ciphertext_text) {
                None => Err(KeystoreError::FormatError),
                Some(ciphertext) => match xchacha_opened(key, nonce, ciphertext) {
                    None => Err(KeystoreError::AuthenticationFailure),
                    Some(plain) => if valid_utf8(plain) {
                        Ok(decode_utf8(plain))
                    } else {
                        Err(KeystoreError::InvalidSecret)
                    },
                },
            }
        },
    }
}

/// Whether the stored texts hold `secret` sealed under `key` with some nonce
/// of the right length, so that opening them under `key` gives it back.
pub open spec fn seals(key: Seq<u8>, nonce_text: Seq<char>, ciphertext_text: Seq<char>, secret: Seq<
    char,
>) -> bool {
    &&& decrypted(key, nonce_text, ciphertext_text) == Ok::<Seq<char>, KeystoreError>(secret)
    &&& exists|nonce: Seq<u8>|
        nonce.len() == NONCE_LEN && (nonce_text, ciphertext_text) == #[trigger] sealed_text(
            key,
            nonce,
            secret,
        )
}

/// Seals a secret under a 32-byte key with the given nonce bytes and returns
/// the stored texts, nonce first.
pub fn encrypt_nsec_with_nonce(nsec: &str, key: &[u8], nonce: &[u8]) -> (r: Result<
    (String, String),
    KeystoreError,
>)
    requires
        key@.len() == 32,
        nonce@.len() == NONCE_LEN,
    ensures
        r is Ok <==> secret_fits(nsec@),
        r matches Ok(texts) ==> (texts.0@, texts.1@) == sealed_text(key@, nonce@, nsec@)
            && decrypted(key@, texts.0@, texts.1@) == Ok::<Seq<char>, KeystoreError>(nsec@),
        r matches Err(e) ==> e == KeystoreError::EncryptionFailure,
{
    let plain = nsec.as_bytes();
    match xchacha_seal(key, nonce, plain) {
        Ok(ciphertext) => {
            let nonce_text = base64_encode(nonce);
            let ciphertext_text = base64_encode(ciphertext.as_slice());
            proof {
                vstd::utf8::encode_utf8_valid_utf8(nsec@);
                vstd::utf8::encode_utf8_decode_utf8(nsec@);
            }
            Ok((nonce_text, ciphertext_text))
        },
        Err(_) => Err(KeystoreError::EncryptionFailure),
    }
}

/// Seals a secret under a 32-byte key with a fresh random nonce.
pub fn encrypt_nsec(nsec: &str, key: &[u8]) -> (r: Result<(String, String), KeystoreError>)
    requires
        key@.len() == 32,
    ensures
        r is Ok <==> secret_fits(nsec@),
        r matches Ok(texts) ==> seals(key@, texts.0@, texts.1@, nsec@),
        r matches Err(e) ==> e == KeystoreError::EncryptionFailure,
{
    let nonce = random_bytes(NONCE_LEN);
    let r = encrypt_nsec_with_nonce(nsec, key, nonce.as_slice());
    assert(r matches Ok(texts) ==> (texts.0@, texts.1@) == sealed_text(key@, nonce@, nsec@));
    r
}

/// Opens the stored texts of a sealed secret under a 32-byte key.
pub fn decrypt_nsec(nonce_b64: &str, ciphertext_b64: &str, key: &[u8]) -> (r: Result<
    String,
    KeystoreError,
>)
    requires
        key@.len() == 32,
    ensures
        text_outcome(r) == decrypted(key@, nonce_b64@, ciphertext_b64@),
{
    let nonce = match base64_decode(nonce_b64) {
        Ok(bytes) => bytes,
        Err(_) => return Err(KeystoreError::FormatError),
    };
    if nonce.len() != NONCE_LEN {
        return Err(KeystoreError::FormatError);
    }
    let ciphertext = match base64_decode(ciphertext_b64) {
        Ok(bytes) => bytes,
        Err(_) => return Err(KeystoreError::FormatError),
    };
    let plain = match xchacha_open(key, nonce.as_slice(), ciphertext.as_slice()) {
        Ok(bytes) => bytes,
        Err(_) => return Err(KeystoreError::AuthenticationFailure),
    };
    match string_from_utf8(plain) {
        Ok(text) => Ok(text),
        Err(bytes) => {
            let mut bytes = bytes;
            wipe_bytes(&mut bytes);
            Err(KeystoreError::InvalidSecret)
        },
    }
}

} // verus!
