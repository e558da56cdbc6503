//! Derivation of the symmetric key that protects an entry, from a password
//! and a stored salt, or from the host's machine identifier.
use vstd::prelude::*;
use vstd::utf8::encode_utf8;

use crate::error::KeystoreError;
use crate::external::{argon2id, argon2id_key, kdf_accepts, sha256, sha256_digest};

verus! {

broadcast use vstd::std_specs::vec::group_vec_axioms;

/// Memory cost of the key derivation, in KiB (64 MiB).
pub const ARGON2_MEMORY_KB: u32 = 65536;

/// Number of passes of the key derivation.
pub const ARGON2_ITERATIONS: u32 = 3;

/// Number of lanes of the key derivation.
pub const ARGON2_PARALLELISM: u32 = 1;

/// Application constant mixed into the device salt, so that the same machine
/// identifier gives other keys in other applications.
pub const DEVICE_MODE_APP_SALT: &'static str = "msp-studio-device-key-v1";

/// Number of digest bytes kept as the device salt.
pub const DEVICE_SALT_LEN: usize = 16;

/// The key derived from password bytes and salt bytes.
pub open spec fn password_key(password: Seq<u8>, salt: Seq<u8>) -> Seq<u8> {
    argon2id_key(ARGON2_MEMORY_KB, ARGON2_ITERATIONS, ARGON2_PARALLELISM, password, salt)
}

/// The deterministic salt of device protection: the first bytes of the
/// SHA-256 digest of the machine identifier followed by the application
/// constant.
pub open spec fn device_salt(machine_id: Seq<char>) -> Seq<u8> {
    sha256_digest(encode_utf8(machine_id) + encode_utf8(DEVICE_MODE_APP_SALT@)).subrange(
        0,
        DEVICE_SALT_LEN as int,
    )
}

/// The key of device protection on a host with this machine identifier.
pub open spec fn device_key(machine_id: Seq<char>) -> Seq<u8> {
    password_key(encode_utf8(machine_id), device_salt(machine_id))
}

/// Whether device protection can derive a key from this machine identifier.
pub open spec fn device_kdf_accepts(machine_id: Seq<char>) -> bool {
    kdf_accepts(encode_utf8(machine_id), device_salt(machine_id))
}

/// Derives the 32-byte key for a password and a salt.
pub fn derive_key_from_password(password: &[u8], salt: &[u8]) -> (r: Result<Vec<u8>, KeystoreError>)
    ensures
        r is Ok <==> kdf_accepts(password@, salt@),
        r matches Ok(k) ==> k@ == password_key(password@, salt@) && k@.len() == 32,
        r matches Err(e) ==> e == KeystoreError::KeyDerivationFailure,
{
    match argon2id(ARGON2_MEMORY_KB, ARGON2_ITERATIONS, ARGON2_PARALLELISM, password, salt) {
        Ok(key) => Ok(key),
        Err(_) => Err(KeystoreError::KeyDerivationFailure),
    }
}

/// Computes the device salt for a machine identifier.
pub fn device_salt_of(machine_id: &str) -> (r: Vec<u8>)
    ensures
        r@ == device_salt(machine_id@),
        r@.len() == DEVICE_SALT_LEN,
{
    let mut combined: Vec<u8> = Vec::new();
    combined.extend_from_slice(machine_id.as_bytes());
    combined.extend_from_slice(DEVICE_MODE_APP_SALT.as_bytes());
    assert(combined@ == encode_utf8(machine_id@) + encode_utf8(DEVICE_MODE_APP_SALT@));
    let mut digest = sha256(combined.as_slice());
    digest.truncate(DEVICE_SALT_LEN);
    digest
}

/// Derives the key of device protection from the host's machine identifier.
pub fn derive_key_from_device(machine_id: &str) -> (r: Result<Vec<u8>, KeystoreError>)
    ensures
        r is Ok <==> device_kdf_accepts(machine_id@),
        r matches Ok(k) ==> k@ == device_key(machine_id@) && k@.len() == 32,
        r matches Err(e) ==> e == KeystoreError::KeyDerivationFailure,
{
    let salt = device_salt_of(machine_id);
    let r = derive_key_from_password(machine_id.as_bytes(), salt.as_slice());
    r
}

} // verus!
