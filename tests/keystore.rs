use msp_keystore::error::KeystoreError;
use msp_keystore::keystore::{load_keystore, Keystore};
use msp_keystore::record::{
    migrate_legacy, KeyEntry, KeystoreFile, Protection, ProtectionMode, StoredKeyEntry,
    StoredKeyFileV1, FORMAT_VERSION,
};

fn entry(id: &str, label: Option<&str>) -> KeyEntry {
    KeyEntry {
        identity_id: id.to_string(),
        protection: Protection::Password { salt: "c2FsdHNhbHRzYWx0c2FsdA".to_string() },
        nonce: "bm9uY2U=".to_string(),
        ciphertext: "Y2lwaGVy".to_string(),
        created_at: 100,
        label: label.map(|l| l.to_string()),
    }
}

fn record(id: &str, mode: &str) -> StoredKeyEntry {
    StoredKeyEntry {
        pubkey: id.to_string(),
        mode: mode.to_string(),
        nonce: "bm9uY2U=".to_string(),
        ciphertext: "Y2lwaGVy".to_string(),
        argon2_salt: "c2FsdA".to_string(),
        created_at: 42,
        label: None,
    }
}

fn legacy(id: &str) -> StoredKeyFileV1 {
    StoredKeyFileV1 {
        version: 1,
        mode: "device".to_string(),
        nonce: "bm9uY2U=".to_string(),
        ciphertext: "Y2lwaGVy".to_string(),
        argon2_salt: String::new(),
        pubkey: id.to_string(),
        created_at: 7,
    }
}

fn ids(ks: &Keystore) -> Vec<String> {
    ks.list().into_iter().map(|i| i.identity_id).collect()
}

#[test]
fn new_keystore_is_empty() {
    let ks = Keystore::new();
    assert_eq!(ks.len(), 0);
    assert!(ks.list().is_empty());
}

#[test]
fn upsert_appends_and_replaces_by_identity() {
    let mut ks = Keystore::new();
    ks.upsert(entry("aa", Some("one")));
    ks.upsert(entry("bb", None));
    assert_eq!(ids(&ks), vec!["aa".to_string(), "bb".to_string()]);
    ks.upsert(entry("aa", Some("two")));
    assert_eq!(ks.len(), 2);
    assert_eq!(ids(&ks), vec!["bb".to_string(), "aa".to_string()]);
    assert_eq!(ks.list()[1].label.as_deref(), Some("two"));
}

#[test]
fn list_shows_mode_time_and_label() {
    let mut ks = Keystore::new();
    ks.upsert(entry("aa", Some("main")));
    let info = &ks.list()[0];
    assert_eq!(info.identity_id, "aa");
    assert_eq!(info.mode, ProtectionMode::Password);
    assert_eq!(info.created_at, 100);
    assert_eq!(info.label.as_deref(), Some("main"));
}

#[test]
fn remove_deletes_only_that_identity() {
    let mut ks = Keystore::new();
    ks.upsert(entry("aa", None));
    ks.upsert(entry("bb", None));
    assert_eq!(ks.remove("aa"), Ok(()));
    assert_eq!(ids(&ks), vec!["bb".to_string()]);
}

#[test]
fn remove_absent_is_not_found_and_changes_nothing() {
    let mut ks = Keystore::new();
    ks.upsert(entry("aa", None));
    assert_eq!(ks.remove("zz"), Err(KeystoreError::NotFound));
    assert_eq!(ids(&ks), vec!["aa".to_string()]);
}

#[test]
fn relabel_changes_label_in_place() {
    let mut ks = Keystore::new();
    ks.upsert(entry("aa", Some("old")));
    ks.upsert(entry("bb", None));
    assert_eq!(ks.relabel("aa", Some("new".to_string())), Ok(()));
    assert_eq!(ids(&ks), vec!["aa".to_string(), "bb".to_string()]);
    assert_eq!(ks.list()[0].label.as_deref(), Some("new"));
    assert_eq!(ks.relabel("aa", None), Ok(()));
    assert_eq!(ks.list()[0].label, None);
}

#[test]
fn relabel_absent_is_not_found() {
    let mut ks = Keystore::new();
    assert_eq!(ks.relabel("aa", None), Err(KeystoreError::NotFound));
}

#[test]
fn position_finds_identity() {
    let mut ks = Keystore::new();
    ks.upsert(entry("aa", None));
    ks.upsert(entry("bb", None));
    assert_eq!(ks.position("bb"), Some(1));
    assert_eq!(ks.position("cc"), None);
    assert_eq!(ks.entry(0).identity_id, "aa");
}

#[test]
fn file_round_trip_keeps_entries() {
    let mut ks = Keystore::new();
    ks.upsert(entry("aa", Some("x")));
    let mut device = entry("bb", None);
    device.protection = Protection::Device;
    ks.upsert(device);
    let file = ks.to_file();
    assert_eq!(file.version, FORMAT_VERSION);
    assert_eq!(file.keys[0].mode, "password");
    assert_eq!(file.keys[0].argon2_salt, "c2FsdHNhbHRzYWx0c2FsdA");
    assert_eq!(file.keys[1].mode, "device");
    assert_eq!(file.keys[1].argon2_salt, "");
    let back = Keystore::from_file(&file).unwrap();
    assert_eq!(ids(&back), vec!["aa".to_string(), "bb".to_string()]);
    assert_eq!(back.list()[1].mode, ProtectionMode::Device);
    assert_eq!(back.list()[0].label.as_deref(), Some("x"));
}

#[test]
fn unknown_mode_is_a_format_error() {
    let file = KeystoreFile { version: 2, keys: vec![record("aa", "password"), record("bb", "yubikey")] };
    assert_eq!(Keystore::from_file(&file).unwrap_err(), KeystoreError::FormatError);
}

#[test]
fn duplicate_identity_in_file_is_a_format_error() {
    let file = KeystoreFile { version: 2, keys: vec![record("aa", "password"), record("aa", "device")] };
    assert_eq!(Keystore::from_file(&file).unwrap_err(), KeystoreError::FormatError);
}

#[test]
fn device_record_ignores_stored_salt() {
    let file = KeystoreFile { version: 2, keys: vec![record("aa", "device")] };
    let ks = Keystore::from_file(&file).unwrap();
    assert!(matches!(ks.entry(0).protection, Protection::Device));
    assert_eq!(ks.to_file().keys[0].argon2_salt, "");
}

#[test]
fn load_prefers_current_format() {
    let file = KeystoreFile { version: 2, keys: vec![record("aa", "password")] };
    let loaded = load_keystore(Some(file), Some(legacy("bb"))).unwrap();
    assert!(!loaded.migrated);
    assert_eq!(ids(&loaded.keystore), vec!["aa".to_string()]);
}

#[test]
fn load_migrates_legacy_record() {
    let loaded = load_keystore(None, Some(legacy("bb"))).unwrap();
    assert!(loaded.migrated);
    let list = loaded.keystore.list();
    assert_eq!(list.len(), 1);
    assert_eq!(list[0].identity_id, "bb");
    assert_eq!(list[0].mode, ProtectionMode::Device);
    assert_eq!(list[0].created_at, 7);
    assert_eq!(list[0].label, None);
}

#[test]
fn load_of_other_version_falls_back_to_legacy() {
    let file = KeystoreFile { version: 3, keys: vec![record("aa", "password")] };
    let loaded = load_keystore(Some(file), Some(legacy("bb"))).unwrap();
    assert!(loaded.migrated);
    assert_eq!(ids(&loaded.keystore), vec!["bb".to_string()]);
    let file = KeystoreFile { version: 3, keys: vec![] };
    assert_eq!(load_keystore(Some(file), None).unwrap_err(), KeystoreError::FormatError);
}

#[test]
fn load_of_neither_format_is_a_format_error() {
    assert_eq!(load_keystore(None, None).unwrap_err(), KeystoreError::FormatError);
}

#[test]
fn migration_is_idempotent() {
    let first = load_keystore(None, Some(legacy("bb"))).unwrap();
    assert!(first.migrated);
    let persisted = first.keystore.to_file();
    assert_eq!(persisted.version, FORMAT_VERSION);
    let second = load_keystore(Some(persisted), None).unwrap();
    assert!(!second.migrated);
    let a = first.keystore.to_file();
    let b = second.keystore.to_file();
    assert_eq!(a.keys.len(), 1);
    assert_eq!(b.keys.len(), 1);
    assert_eq!(a.keys[0].pubkey, b.keys[0].pubkey);
    assert_eq!(a.keys[0].mode, b.keys[0].mode);
    assert_eq!(a.keys[0].nonce, b.keys[0].nonce);
    assert_eq!(a.keys[0].ciphertext, b.keys[0].ciphertext);
    assert_eq!(a.keys[0].created_at, b.keys[0].created_at);
    assert_eq!(a.keys[0].label, b.keys[0].label);
}

#[test]
fn migrate_legacy_keeps_fields_and_drops_label() {
    let file = migrate_legacy(&legacy("cc"));
    assert_eq!(file.version, 2);
    assert_eq!(file.keys.len(), 1);
    assert_eq!(file.keys[0].pubkey, "cc");
    assert_eq!(file.keys[0].mode, "device");
    assert_eq!(file.keys[0].nonce, "bm9uY2U=");
    assert_eq!(file.keys[0].created_at, 7);
    assert_eq!(file.keys[0].label, None);
}
