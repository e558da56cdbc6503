//! The keystore operations that involve secrets: adding a protected secret,
//! unlocking one, and changing how one is protected. Each works on an
//! in-memory keystore and leaves it unchanged when it fails.
use vstd::prelude::*;
use vstd::utf8::encode_utf8;

use crate::cipher::{decrypt_nsec, decrypted, encrypt_nsec, seals, secret_fits};
use crate::error::{text_outcome, KeystoreError};
use crate::external::{kdf_accepts, nostr_public_id, public_id_of, random_salt, wipe_bytes, wipe_text};
use crate::kdf::{derive_key_from_device, derive_key_from_password, device_key, device_kdf_accepts, password_key};
use crate::keystore::{selected, upserted, Keystore};
use crate::record::{copy_text_opt, mode_of, text_opt, EntryView, KeyEntry, Protection, ProtectionMode, ProtectionView};

verus! {

/// What the host provides to the operations: its machine identifier, where
/// it could give one, and the current time.
#[derive(Debug)]
pub struct HostInfo {
    pub machine_id: Option<String>,
    /// Unix seconds.
    pub now: u64,
}

/// An optional borrowed text seen through its characters.
pub open spec fn str_opt(o: Option<&str>) -> Option<Seq<char>> {
    match o {
        Some(s) => Some(s@),
        None => None,
    }
}

/// A key result seen through the bytes of the key.
pub open spec fn key_outcome(r: Result<Vec<u8>, KeystoreError>) -> Result<Seq<u8>, KeystoreError> {
    match r {
        Ok(k) => Ok(k@),
        Err(e) => Err(e),
    }
}

/// The key that opens an entry of this protection with these credentials,
/// or why none can be derived.
pub open spec fn entry_key(
    p: ProtectionView,
    password: Option<Seq<char>>,
    machine_id: Option<Seq<char>>,
) -> Result<Seq<u8>, KeystoreError> {
    match p {
        ProtectionView::Password { salt } => match password {
            None => Err(KeystoreError::MissingCredential),
            Some(pw) => if kdf_accepts(encode_utf8(pw), encode_utf8(salt)) {
                Ok(password_key(encode_utf8(pw), encode_utf8(salt)))
            } else {
                Err(KeystoreError::KeyDerivationFailure)
            },
        },
        ProtectionView::Device => match machine_id {
            None => Err(KeystoreError::DeviceUnavailable),
            Some(m) => if device_kdf_accepts(m) {
                Ok(device_key(m))
            } else {
                Err(KeystoreError::KeyDerivationFailure)
            },
        },
    }
}

/// The secret that an entry yields under a key: decrypted, then accepted
/// only if its public identifier is the entry's.
pub open spec fn verified_secret(e: EntryView, key: Seq<u8>) -> Result<Seq<char>, KeystoreError> {
    match decrypted(key, e.nonce, e.ciphertext) {
        Err(err) => Err(err),
        Ok(secret) => match nostr_public_id(secret) {
            None => Err(KeystoreError::InvalidSecret),
            Some(id) => if id == e.identity_id {
                Ok(secret)
            } else {
                Err(KeystoreError::VerificationMismatch)
            },
        },
    }
}

/// What unlocking gives: the selected entry's secret, or why not.
pub open spec fn unlock_outcome(
    s: Seq<EntryView>,
    identity_id: Option<Seq<char>>,
    password: Option<Seq<char>>,
    machine_id: Option<Seq<char>>,
) -> Result<Seq<char>, KeystoreError> {
    match selected(s, identity_id) {
        None => Err(KeystoreError::NotFound),
        Some(e) => match entry_key(e.protection, password, machine_id) {
            Err(err) => Err(err),
            Ok(key) => verified_secret(e, key),
        },
    }
}

/// Whether adding a secret in this mode succeeds, or the first reason it
/// does not: a missing or empty password, a secret that is no private key,
/// no machine identifier, inputs the key derivation refuses, a secret too
/// long for the cipher.
pub open spec fn add_check(
    secret: Seq<char>,
    mode: ProtectionMode,
    password: Option<Seq<char>>,
    machine_id: Option<Seq<char>>,
) -> Result<(), KeystoreError> {
    if mode == ProtectionMode::Password && (password is None || password->0.len() == 0) {
        Err(KeystoreError::MissingCredential)
    } else if nostr_public_id(secret) is None {
        Err(KeystoreError::InvalidSecret)
    } else if mode == ProtectionMode::Device && machine_id is None {
        Err(KeystoreError::DeviceUnavailable)
    } else if mode == ProtectionMode::Password && encode_utf8(password->0).len() > 0xffff_ffff {
        Err(KeystoreError::KeyDerivationFailure)
    } else if mode == ProtectionMode::Device && !device_kdf_accepts(machine_id->0) {
        Err(KeystoreError::KeyDerivationFailure)
    } else if !secret_fits(secret) {
        Err(KeystoreError::EncryptionFailure)
    } else {
        Ok(())
    }
}

/// Whether `e` is an entry that protects `secret` in this mode: it carries
/// the secret's identifier, the label and time given, and its texts open
/// under the key that these credentials derive for its protection.
pub open spec fn protects(
    e: EntryView,
    secret: Seq<char>,
    mode: ProtectionMode,
    password: Option<Seq<char>>,
    machine_id: Option<Seq<char>>,
    label: Option<Seq<char>>,
    now: u64,
) -> bool {
    &&& nostr_public_id(secret) == Some(e.identity_id)
    &&& mode_of(e.protection) == mode
    &&& e.label == label
    &&& e.created_at == now
    &&& entry_key(e.protection, password, machine_id) matches Ok(key) && seals(
        key,
        e.nonce,
        e.ciphertext,
        secret,
    )
}

/// Whether `after` is `before` with `secret` added in this mode: some entry
/// that protects it has replaced any entry of its identity.
pub open spec fn added(
    before: Seq<EntryView>,
    after: Seq<EntryView>,
    secret: Seq<char>,
    mode: ProtectionMode,
    password: Option<Seq<char>>,
    machine_id: Option<Seq<char>>,
    label: Option<Seq<char>>,
    now: u64,
) -> bool {
    exists|e: EntryView|
        protects(e, secret, mode, password, machine_id, label, now) && after == #[trigger] upserted(
            before,
            e,
        )
}

/// The mode that rotation moves an entry to: password protection for a
/// non-empty new password, device protection otherwise.
pub open spec fn rotated_mode(new_password: Option<Seq<char>>) -> ProtectionMode {
    if new_password matches Some(p) && p.len() > 0 {
        ProtectionMode::Password
    } else {
        ProtectionMode::Device
    }
}

/// The password that rotation protects with, if any.
pub open spec fn rotated_password(new_password: Option<Seq<char>>) -> Option<Seq<char>> {
    if rotated_mode(new_password) == ProtectionMode::Password {
        new_password
    } else {
        None
    }
}

/// Whether rotating the entry of `identity_id` succeeds, or why not: it must
/// unlock with the current credentials, then be added again under the new
/// ones.
pub open spec fn rotate_check(
    s: Seq<EntryView>,
    identity_id: Seq<char>,
    current_password: Option<Seq<char>>,
    new_password: Option<Seq<char>>,
    machine_id: Option<Seq<char>>,
) -> Result<(), KeystoreError> {
    match unlock_outcome(s, Some(identity_id), current_password, machine_id) {
        Err(e) => Err(e),
        Ok(secret) => add_check(
            secret,
            rotated_mode(new_password),
            rotated_password(new_password),
            machine_id,
        ),
    }
}

/// Derives the key that opens an entry of this protection.
pub fn derive_entry_key(
    protection: &Protection,
    password: Option<&str>,
    machine_id: &Option<String>,
) -> (r: Result<Vec<u8>, KeystoreError>)
    ensures
        key_outcome(r) == entry_key(protection@, str_opt(password), text_opt(*machine_id)),
        r matches Ok(k) ==> k@.len() == 32,
{
    match protection {
        Protection::Password { salt } => match password {
            None => Err(KeystoreError::MissingCredential),
            Some(pw) => derive_key_from_password(pw.as_bytes(), salt.as_str().as_bytes()),
        },
        Protection::Device => match machine_id {
            None => Err(KeystoreError::DeviceUnavailable),
            Some(m) => derive_key_from_device(m.as_str()),
        },
    }
}

impl Keystore {
    /// Recovers the secret of the entry of `identity_id`, or of the first
    /// entry where none is given, with a password for a password-protected
    /// entry and the host's machine identifier for a device-protected one.
    /// The secret is handed over only if its public identifier is the
    /// entry's.
    pub fn unlock(&self, identity_id: Option<&str>, password: Option<&str>, host: &HostInfo) -> (r:
        Result<String, KeystoreError>)
        requires
            self.wf(),
        ensures
            text_outcome(r) == unlock_outcome(
                self@,
                str_opt(identity_id),
                str_opt(password),
                text_opt(host.machine_id),
            ),
    {
        let i = match identity_id {
            Some(id) => match self.position(id) {
                Some(i) => {
                    proof {
                        crate::keystore::lemma_index_of(self@, id@, i as int);
                    }
                    i
                },
                None => return Err(KeystoreError::NotFound),
            },
            None => {
                if self.len() == 0 {
                    return Err(KeystoreError::NotFound);
                }
                0
            },
        };
        let entry = self.entry(i);
        let mut key = match derive_entry_key(&entry.protection, password, &host.machine_id) {
            Ok(k) => k,
            Err(e) => return Err(e),
        };
        let opened = decrypt_nsec(entry.nonce.as_str(), entry.ciphertext.as_str(), key.as_slice());
        wipe_bytes(&mut key);
        let mut secret = match opened {
            Ok(s) => s,
            Err(e) => return Err(e),
        };
        match public_id_of(secret.as_str()) {
            Ok(id) => {
                if id == entry.identity_id {
                    Ok(secret)
                } else {
                    wipe_text(&mut secret);
                    Err(KeystoreError::VerificationMismatch)
                }
            },
            Err(_) => {
                wipe_text(&mut secret);
                Err(KeystoreError::InvalidSecret)
            },
        }
    }

    /// Protects a secret and stores it under its public identifier,
    /// replacing any entry of that identifier. Password protection takes a
    /// fresh random salt; device protection uses the host's machine
    /// identifier. The secret is sealed with a fresh random nonce.
    pub fn add_protected(
        &mut self,
        secret: &str,
        mode: ProtectionMode,
        password: Option<&str>,
        label: Option<String>,
        host: &HostInfo,
    ) -> (r: Result<(), KeystoreError>)
        requires
            old(self).wf(),
        ensures
            final(self).wf(),
            r == add_check(secret@, mode, str_opt(password), text_opt(host.machine_id)),
            r is Err ==> final(self)@ == old(self)@,
            r is Ok ==> added(
                old(self)@,
                final(self)@,
                secret@,
                mode,
                str_opt(password),
                text_opt(host.machine_id),
                text_opt(label),
                host.now,
            ),
    {
        if mode == ProtectionMode::Password {
            match password {
                None => return Err(KeystoreError::MissingCredential),
                Some(pw) => if pw.is_empty() {
                    return Err(KeystoreError::MissingCredential);
                },
            }
        }
        let identity_id = match public_id_of(secret) {
            Ok(id) => id,
            Err(_) => return Err(KeystoreError::InvalidSecret),
        };
        let protection = match mode {
            ProtectionMode::Password => {
                let salt = random_salt();
                proof {
                    vstd::utf8::is_ascii_chars_encode_utf8(salt@);
                }
                Protection::Password { salt }
            },
            ProtectionMode::Device => Protection::Device,
        };
        let mut key = match derive_entry_key(&protection, password, &host.machine_id) {
            Ok(k) => k,
            Err(e) => return Err(e),
        };
        let sealed = encrypt_nsec(secret, key.as_slice());
        wipe_bytes(&mut key);
        let (nonce, ciphertext) = match sealed {
            Ok(texts) => texts,
            Err(e) => return Err(e),
        };
        let entry = KeyEntry {
            identity_id,
            protection,
            nonce,
            ciphertext,
            created_at: host.now,
            label,
        };
        assert(protects(
            entry@,
            secret@,
            mode,
            str_opt(password),
            text_opt(host.machine_id),
            text_opt(label),
            host.now,
        ));
        let ghost before = self@;
        self.upsert(entry);
        assert(upserted(before, entry@) == self@);
        Ok(())
    }

    /// Changes how the entry of `identity_id` is protected: it is unlocked
    /// with the current credentials, then added again, with its label, under
    /// password protection when a non-empty new password is given and under
    /// device protection otherwise.
    pub fn rotate_protection(
        &mut self,
        identity_id: &str,
        current_password: Option<&str>,
        new_password: Option<&str>,
        host: &HostInfo,
    ) -> (r: Result<(), KeystoreError>)
        requires
            old(self).wf(),
        ensures
            final(self).wf(),
            r == rotate_check(
                old(self)@,
                identity_id@,
                str_opt(current_password),
                str_opt(new_password),
                text_opt(host.machine_id),
            ),
            r is Err ==> final(self)@ == old(self)@,
            r is Ok ==> added(
                old(self)@,
                final(self)@,
                unlock_outcome(
                    old(self)@,
                    Some(identity_id@),
                    str_opt(current_password),
                    text_opt(host.machine_id),
                )->Ok_0,
                rotated_mode(str_opt(new_password)),
                rotated_password(str_opt(new_password)),
                text_opt(host.machine_id),
                selected(old(self)@, Some(identity_id@))->0.label,
                host.now,
            ),
    {
        let mut secret = match self.unlock(Some(identity_id), current_password, host) {
            Ok(s) => s,
            Err(e) => return Err(e),
        };
        let i = match self.position(identity_id) {
            Some(i) => i,
            None => {
                wipe_text(&mut secret);
                return Err(KeystoreError::NotFound);
            },
        };
        proof {
            crate::keystore::lemma_index_of(self@, identity_id@, i as int);
        }
        let label = copy_text_opt(&self.entry(i).label);
        let (mode, password) = match new_password {
            Some(p) => if p.is_empty() {
                (ProtectionMode::Device, None)
            } else {
                (ProtectionMode::Password, Some(p))
            },
            None => (ProtectionMode::Device, None),
        };
        let r = self.add_protected(secret.as_str(), mode, password, label, host);
        wipe_text(&mut secret);
        r
    }
}

} // verus!
