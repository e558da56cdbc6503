//! The data of the keystore: protected entries as the library holds them,
//! the shapes in which they are persisted, the migration from the legacy
//! single-entry shape, and the choice between the two on load.
use vstd::prelude::*;

use crate::error::KeystoreError;

verus! {

/// The format version that this library writes.
pub const FORMAT_VERSION: u32 = 2;

/// The two ways an entry can be protected, as a caller names them.
#[derive(Debug, Clone, Copy, PartialEq, Eq, Structural)]
pub enum ProtectionMode {
    Password,
    Device,
}

/// How an entry is protected, with what each way needs: a password-protected
/// entry keeps the salt of its key derivation, a device-protected one needs
/// nothing stored.
#[derive(Debug)]
pub enum Protection {
    Password { salt: String },
    Device,
}

/// The mathematical value of a [`Protection`].
pub ghost enum ProtectionView {
    Password { salt: Seq<char> },
    Device,
}

impl View for Protection {
    type V = ProtectionView;

    open spec fn view(&self) -> ProtectionView {
        match self {
            Protection::Password { salt } => ProtectionView::Password { salt: salt@ },
            Protection::Device => ProtectionView::Device,
        }
    }
}

/// The mode of a protection.
pub open spec fn mode_of(p: ProtectionView) -> ProtectionMode {
    match p {
        ProtectionView::Password { .. } => ProtectionMode::Password,
        ProtectionView::Device => ProtectionMode::Device,
    }
}

/// An optional text seen through its characters.
pub open spec fn text_opt(o: Option<String>) -> Option<Seq<char>> {
    match o {
        Some(s) => Some(s@),
        None => None,
    }
}

/// One protected secret.
#[derive(Debug)]
pub struct KeyEntry {
    /// Public identifier derived from the secret; the key of the entry.
    pub identity_id: String,
    pub protection: Protection,
    /// Base64 of the nonce the secret was sealed with.
    pub nonce: String,
    /// Base64 of the sealed secret.
    pub ciphertext: String,
    /// Unix seconds at which the entry was made.
    pub created_at: u64,
    /// Free text chosen by the user.
    pub label: Option<String>,
}

/// The mathematical value of a [`KeyEntry`].
pub ghost struct EntryView {
    pub identity_id: Seq<char>,
    pub protection: ProtectionView,
    pub nonce: Seq<char>,
    pub ciphertext: Seq<char>,
    pub created_at: u64,
    pub label: Option<Seq<char>>,
}

impl View for KeyEntry {
    type V = EntryView;

    open spec fn view(&self) -> EntryView {
        EntryView {
            identity_id: self.identity_id@,
            protection: self.protection@,
            nonce: self.nonce@,
            ciphertext: self.ciphertext@,
            created_at: self.created_at,
            label: text_opt(self.label),
        }
    }
}

/// What a listing shows of an entry: never its nonce, ciphertext or salt.
#[derive(Debug)]
pub struct KeyInfo {
    pub identity_id: String,
    pub mode: ProtectionMode,
    pub created_at: u64,
    pub label: Option<String>,
}

/// The mathematical value of a [`KeyInfo`].
pub ghost struct InfoView {
    pub identity_id: Seq<char>,
    pub mode: ProtectionMode,
    pub created_at: u64,
    pub label: Option<Seq<char>>,
}

impl View for KeyInfo {
    type V = InfoView;

    open spec fn view(&self) -> InfoView {
        InfoView {
            identity_id: self.identity_id@,
            mode: self.mode,
            created_at: self.created_at,
            label: text_opt(self.label),
        }
    }
}

/// The listing of an entry.
pub open spec fn info_of(e: EntryView) -> InfoView {
    InfoView {
        identity_id: e.identity_id,
        mode: mode_of(e.protection),
        created_at: e.created_at,
        label: e.label,
    }
}

/// An entry as persisted: the mode is a word and the salt is empty for
/// device protection.
#[derive(Debug)]
pub struct StoredKeyEntry {
    pub pubkey: String,
    pub mode: String,
    pub nonce: String,
    pub ciphertext: String,
    pub argon2_salt: String,
    pub created_at: u64,
    pub label: Option<String>,
}

/// The mathematical value of a [`StoredKeyEntry`].
pub ghost struct StoredEntryView {
    pub pubkey: Seq<char>,
    pub mode: Seq<char>,
    pub nonce: Seq<char>,
    pub ciphertext: Seq<char>,
    pub argon2_salt: Seq<char>,
    pub created_at: u64,
    pub label: Option<Seq<char>>,
}

impl View for StoredKeyEntry {
    type V = StoredEntryView;

    open spec fn view(&self) -> StoredEntryView {
        StoredEntryView {
            pubkey: self.pubkey@,
            mode: self.mode@,
            nonce: self.nonce@,
            ciphertext: self.ciphertext@,
            argon2_salt: self.argon2_salt@,
            created_at: self.created_at,
            label: text_opt(self.label),
        }
    }
}

/// The persisted keystore in the current format.
#[derive(Debug)]
pub struct KeystoreFile {
    pub version: u32,
    pub keys: Vec<StoredKeyEntry>,
}

/// The mathematical value of a [`KeystoreFile`].
pub ghost struct FileView {
    pub version: u32,
    pub keys: Seq<StoredEntryView>,
}

impl View for KeystoreFile {
    type V = FileView;

    open spec fn view(&self) -> FileView {
        FileView { version: self.version, keys: self.keys@.map_values(|k: StoredKeyEntry| k@) }
    }
}

/// The persisted keystore in the legacy format: a single entry, with its
/// fields at the top level and no label.
#[derive(Debug)]
pub struct StoredKeyFileV1 {
    pub version: u32,
    pub mode: String,
    pub nonce: String,
    pub ciphertext: String,
    pub argon2_salt: String,
    pub pubkey: String,
    pub created_at: u64,
}

/// The mathematical value of a [`StoredKeyFileV1`].
pub ghost struct LegacyView {
    pub version: u32,
    pub mode: Seq<char>,
    pub nonce: Seq<char>,
    pub ciphertext: Seq<char>,
    pub argon2_salt: Seq<char>,
    pub pubkey: Seq<char>,
    pub created_at: u64,
}

impl View for StoredKeyFileV1 {
    type V = LegacyView;

    open spec fn view(&self) -> LegacyView {
        LegacyView {
            version: self.version,
            mode: self.mode@,
            nonce: self.nonce@,
            ciphertext: self.ciphertext@,
            argon2_salt: self.argon2_salt@,
            pubkey: self.pubkey@,
            created_at: self.created_at,
        }
    }
}

/// The word that names a mode in the persisted format.
pub open spec fn mode_word(m: ProtectionMode) -> Seq<char> {
    match m {
        ProtectionMode::Password => "password"@,
        ProtectionMode::Device => "device"@,
    }
}

/// The persisted form of an entry.
pub open spec fn entry_record(e: EntryView) -> StoredEntryView {
    StoredEntryView {
        pubkey: e.identity_id,
        mode: mode_word(mode_of(e.protection)),
        nonce: e.nonce,
        ciphertext: e.ciphertext,
        argon2_salt: match e.protection {
            ProtectionView::Password { salt } => salt,
            ProtectionView::Device => Seq::empty(),
        },
        created_at: e.created_at,
        label: e.label,
    }
}

/// The entry that a persisted form stands for, or `None` where its mode is
/// neither word. A device entry has no use for the stored salt.
pub open spec fn record_entry(r: StoredEntryView) -> Option<EntryView> {
    let protection = if r.mode == mode_word(ProtectionMode::Password) {
        Some(ProtectionView::Password { salt: r.argon2_salt })
    } else if r.mode == mode_word(ProtectionMode::Device) {
        Some(ProtectionView::Device)
    } else {
        None
    };
    match protection {
        Some(p) => Some(
            EntryView {
                identity_id: r.pubkey,
                protection: p,
                nonce: r.nonce,
                ciphertext: r.ciphertext,
                created_at: r.created_at,
                label: r.label,
            },
        ),
        None => None,
    }
}

/// The current-format record that a legacy record becomes: the same fields,
/// no label, as the only entry.
pub open spec fn migrated_record(v1: LegacyView) -> StoredEntryView {
    StoredEntryView {
        pubkey: v1.pubkey,
        mode: v1.mode,
        nonce: v1.nonce,
        ciphertext: v1.ciphertext,
        argon2_salt: v1.argon2_salt,
        created_at: v1.created_at,
        label: None,
    }
}

/// Copies an optional text.
pub fn copy_text_opt(o: &Option<String>) -> (r: Option<String>)
    ensures
        text_opt(r) == text_opt(*o),
{
    match o {
        Some(s) => Some(s.clone()),
        None => None,
    }
}

impl ProtectionMode {
    /// The word that names this mode in the persisted format.
    pub fn word(&self) -> (r: String)
        ensures
            r@ == mode_word(*self),
    {
        match self {
            ProtectionMode::Password => "password".to_owned(),
            ProtectionMode::Device => "device".to_owned(),
        }
    }
}

impl Protection {
    /// The mode of this protection.
    pub fn mode(&self) -> (r: ProtectionMode)
        ensures
            r == mode_of(self@),
    {
        match self {
            Protection::Password { .. } => ProtectionMode::Password,
            Protection::Device => ProtectionMode::Device,
        }
    }
}

impl KeyEntry {
    /// What a listing shows of this entry.
    pub fn info(&self) -> (r: KeyInfo)
        ensures
            r@ == info_of(self@),
    {
        KeyInfo {
            identity_id: self.identity_id.clone(),
            mode: self.protection.mode(),
            created_at: self.created_at,
            label: copy_text_opt(&self.label),
        }
    }

    /// The persisted form of this entry.
    pub fn to_record(&self) -> (r: StoredKeyEntry)
        ensures
            r@ == entry_record(self@),
    {
        let argon2_salt = match &self.protection {
            Protection::Password { salt } => salt.clone(),
            Protection::Device => String::new(),
        };
        StoredKeyEntry {
            pubkey: self.identity_id.clone(),
            mode: self.protection.mode().word(),
            nonce: self.nonce.clone(),
            ciphertext: self.ciphertext.clone(),
            argon2_salt,
            created_at: self.created_at,
            label: copy_text_opt(&self.label),
        }
    }

    /// The entry that a persisted form stands for; a mode word other than
    /// the two known ones is a format error.
    pub fn from_record(record: &StoredKeyEntry) -> (r: Result<KeyEntry, KeystoreError>)
        ensures
            match record_entry(record@) {
                Some(e) => r matches Ok(x) && x@ == e,
                None => r == Err::<KeyEntry, KeystoreError>(KeystoreError::FormatError),
            },
    {
        let protection = if record.mode == ProtectionMode::Password.word() {
            Protection::Password { salt: record.argon2_salt.clone() }
        } else if record.mode == ProtectionMode::Device.word() {
            Protection::Device
        } else {
            return Err(KeystoreError::FormatError);
        };
        Ok(
            KeyEntry {
                identity_id: record.pubkey.clone(),
                protection,
                nonce: record.nonce.clone(),
                ciphertext: record.ciphertext.clone(),
                created_at: record.created_at,
                label: copy_text_opt(&record.label),
            },
        )
    }
}

/// Turns a legacy record into a current-format one holding its single entry,
/// unlabelled.
pub fn migrate_legacy(v1: &StoredKeyFileV1) -> (r: KeystoreFile)
    ensures
        r@ == (FileView { version: FORMAT_VERSION, keys: seq![migrated_record(v1@)] }),
{
    let entry = StoredKeyEntry {
        pubkey: v1.pubkey.clone(),
        mode: v1.mode.clone(),
        nonce: v1.nonce.clone(),
        ciphertext: v1.ciphertext.clone(),
        argon2_salt: v1.argon2_salt.clone(),
        created_at: v1.created_at,
        label: None,
    };
    let mut keys: Vec<StoredKeyEntry> = Vec::new();
    keys.push(entry);
    let r = KeystoreFile { version: FORMAT_VERSION, keys };
    assert(r@.keys =~= seq![migrated_record(v1@)]);
    r
}

} // verus!
