use msp_keystore::error::KeystoreError;
use msp_keystore::keystore::Keystore;
use msp_keystore::manager::HostInfo;
use msp_keystore::record::{Protection, ProtectionMode};
use nostr::nips::nip19::ToBech32;

const HEX_A: &str = "67dea2ed018072d675f5415ecfaed7d2597555e202d85b3d65ea4e58d2d92ffa";
const HEX_B: &str = "3501454135014541350145413501453fefb02227e449e57cf4d3a3ce05378683";

/// A bech32 secret and the hex identity it yields.
fn key(hex: &str) -> (String, String) {
    let secret = nostr::key::SecretKey::from_hex(hex).unwrap();
    let nsec = secret.to_bech32().unwrap();
    let id = nostr::key::Keys::new(secret).public_key().to_hex();
    (nsec, id)
}

fn host(machine: &str, now: u64) -> HostInfo {
    HostInfo { machine_id: Some(machine.to_string()), now }
}

#[test]
fn password_round_trip() {
    let (nsec, id) = key(HEX_A);
    let mut ks = Keystore::new();
    let h = host("host-a", 1000);
    ks.add_protected(&nsec, ProtectionMode::Password, Some("hunter2"), None, &h).unwrap();
    assert_eq!(ks.unlock(Some(&id), Some("hunter2"), &h).unwrap(), nsec);
}

#[test]
fn device_round_trip_on_same_host_later() {
    let (nsec, id) = key(HEX_A);
    let mut ks = Keystore::new();
    ks.add_protected(&nsec, ProtectionMode::Device, None, None, &host("host-a", 1000)).unwrap();
    assert!(matches!(ks.entry(0).protection, Protection::Device));
    let later = host("host-a", 999_999);
    assert_eq!(ks.unlock(Some(&id), None, &later).unwrap(), nsec);
}

#[test]
fn device_entry_fails_on_another_host() {
    let (nsec, id) = key(HEX_A);
    let mut ks = Keystore::new();
    ks.add_protected(&nsec, ProtectionMode::Device, None, None, &host("host-a", 1)).unwrap();
    assert_eq!(
        ks.unlock(Some(&id), None, &host("host-b", 1)),
        Err(KeystoreError::AuthenticationFailure)
    );
}

#[test]
fn device_without_machine_id_is_unavailable() {
    let (nsec, _) = key(HEX_A);
    let mut ks = Keystore::new();
    let none = HostInfo { machine_id: None, now: 1 };
    assert_eq!(
        ks.add_protected(&nsec, ProtectionMode::Device, None, None, &none),
        Err(KeystoreError::DeviceUnavailable)
    );
    assert_eq!(ks.len(), 0);
}

#[test]
fn wrong_password_is_an_authentication_failure() {
    let (nsec, id) = key(HEX_A);
    let mut ks = Keystore::new();
    let h = host("host-a", 1);
    ks.add_protected(&nsec, ProtectionMode::Password, Some("right"), None, &h).unwrap();
    assert_eq!(ks.unlock(Some(&id), Some("wrong"), &h), Err(KeystoreError::AuthenticationFailure));
    assert_eq!(ks.unlock(Some(&id), Some(""), &h), Err(KeystoreError::AuthenticationFailure));
}

#[test]
fn password_entry_without_password_is_missing_credential() {
    let (nsec, id) = key(HEX_A);
    let mut ks = Keystore::new();
    let h = host("host-a", 1);
    ks.add_protected(&nsec, ProtectionMode::Password, Some("right"), None, &h).unwrap();
    assert_eq!(ks.unlock(Some(&id), None, &h), Err(KeystoreError::MissingCredential));
}

#[test]
fn add_with_missing_or_empty_password_is_refused() {
    let (nsec, _) = key(HEX_A);
    let mut ks = Keystore::new();
    let h = host("host-a", 1);
    assert_eq!(
        ks.add_protected(&nsec, ProtectionMode::Password, None, None, &h),
        Err(KeystoreError::MissingCredential)
    );
    assert_eq!(
        ks.add_protected(&nsec, ProtectionMode::Password, Some(""), None, &h),
        Err(KeystoreError::MissingCredential)
    );
    assert_eq!(ks.len(), 0);
}

#[test]
fn add_of_invalid_secret_is_refused() {
    let mut ks = Keystore::new();
    let h = host("host-a", 1);
    assert_eq!(
        ks.add_protected("not-a-key", ProtectionMode::Password, Some("pw"), None, &h),
        Err(KeystoreError::InvalidSecret)
    );
    assert_eq!(
        ks.add_protected(HEX_A, ProtectionMode::Device, None, None, &h),
        Err(KeystoreError::InvalidSecret)
    );
    assert_eq!(ks.len(), 0);
}

#[test]
fn add_stores_identity_label_time_and_fresh_salt() {
    let (nsec, id) = key(HEX_A);
    let mut ks = Keystore::new();
    let h = host("host-a", 1234);
    ks.add_protected(&nsec, ProtectionMode::Password, Some("pw"), Some("main".to_string()), &h)
        .unwrap();
    let e = ks.entry(0);
    assert_eq!(e.identity_id, id);
    assert_eq!(e.created_at, 1234);
    assert_eq!(e.label.as_deref(), Some("main"));
    assert!(!e.ciphertext.contains(&nsec));
    match &e.protection {
        Protection::Password { salt } => assert_eq!(salt.len(), 22),
        Protection::Device => panic!("expected password protection"),
    }
}

#[test]
fn adding_same_identity_twice_keeps_one_entry() {
    let (nsec, id) = key(HEX_A);
    let (other, _) = key(HEX_B);
    let mut ks = Keystore::new();
    let h = host("host-a", 1);
    ks.add_protected(&nsec, ProtectionMode::Password, Some("pw1"), None, &h).unwrap();
    ks.add_protected(&other, ProtectionMode::Password, Some("pw"), None, &h).unwrap();
    assert_eq!(ks.len(), 2);
    ks.add_protected(&nsec, ProtectionMode::Device, None, Some("again".to_string()), &h).unwrap();
    assert_eq!(ks.len(), 2);
    let list = ks.list();
    assert_eq!(list.iter().filter(|i| i.identity_id == id).count(), 1);
    assert_eq!(list[1].identity_id, id);
    assert_eq!(list[1].mode, ProtectionMode::Device);
    assert_eq!(list[1].label.as_deref(), Some("again"));
}

#[test]
fn unlock_on_empty_or_unknown_is_not_found() {
    let ks = Keystore::new();
    let h = host("host-a", 1);
    assert_eq!(ks.unlock(None, Some("pw"), &h), Err(KeystoreError::NotFound));
    assert_eq!(ks.unlock(Some("abcd"), Some("pw"), &h), Err(KeystoreError::NotFound));
}

#[test]
fn unlock_without_identity_takes_first_entry() {
    let (a, _) = key(HEX_A);
    let (b, _) = key(HEX_B);
    let mut ks = Keystore::new();
    let h = host("host-a", 1);
    ks.add_protected(&a, ProtectionMode::Password, Some("pa"), None, &h).unwrap();
    ks.add_protected(&b, ProtectionMode::Password, Some("pb"), None, &h).unwrap();
    assert_eq!(ks.unlock(None, Some("pa"), &h).unwrap(), a);
}

#[test]
fn mismatched_identity_is_a_verification_error() {
    let (a, id_a) = key(HEX_A);
    let (_, id_b) = key(HEX_B);
    let mut ks = Keystore::new();
    let h = host("host-a", 1);
    ks.add_protected(&a, ProtectionMode::Password, Some("pw"), None, &h).unwrap();
    let mut file = ks.to_file();
    assert_eq!(file.keys[0].pubkey, id_a);
    file.keys[0].pubkey = id_b.clone();
    let tampered = Keystore::from_file(&file).unwrap();
    assert_eq!(
        tampered.unlock(Some(&id_b), Some("pw"), &h),
        Err(KeystoreError::VerificationMismatch)
    );
}

// Each key derivation takes seconds on purpose, so the rotation tests keep
// to a few derivations each.
#[test]
fn rotate_password_to_password_new_unlocks() {
    let (nsec, id) = key(HEX_A);
    let mut ks = Keystore::new();
    let h = host("host-a", 1);
    ks.add_protected(&nsec, ProtectionMode::Password, Some("old"), Some("lbl".to_string()), &h)
        .unwrap();
    assert_eq!(ks.rotate_protection(&id, Some("old"), Some("new"), &host("host-a", 2)), Ok(()));
    assert_eq!(ks.len(), 1);
    let info = &ks.list()[0];
    assert_eq!(info.identity_id, id);
    assert_eq!(info.label.as_deref(), Some("lbl"));
    assert_eq!(info.mode, ProtectionMode::Password);
    assert_eq!(ks.unlock(Some(&id), Some("new"), &h).unwrap(), nsec);
}

#[test]
fn rotate_password_to_password_old_fails() {
    let (nsec, id) = key(HEX_A);
    let mut ks = Keystore::new();
    let h = host("host-a", 1);
    ks.add_protected(&nsec, ProtectionMode::Password, Some("old"), None, &h).unwrap();
    assert_eq!(ks.rotate_protection(&id, Some("old"), Some("new"), &h), Ok(()));
    assert_eq!(ks.unlock(Some(&id), Some("old"), &h), Err(KeystoreError::AuthenticationFailure));
}

#[test]
fn rotate_with_empty_new_password_moves_to_device() {
    let (nsec, id) = key(HEX_A);
    let mut ks = Keystore::new();
    let h = host("host-a", 1);
    ks.add_protected(&nsec, ProtectionMode::Password, Some("old"), None, &h).unwrap();
    assert_eq!(ks.rotate_protection(&id, Some("old"), Some(""), &h), Ok(()));
    assert_eq!(ks.list()[0].mode, ProtectionMode::Device);
    assert_eq!(ks.list()[0].identity_id, id);
}

#[test]
fn rotate_device_to_password() {
    let (nsec, id) = key(HEX_A);
    let mut ks = Keystore::new();
    let h = host("host-a", 1);
    ks.add_protected(&nsec, ProtectionMode::Device, None, None, &h).unwrap();
    assert_eq!(ks.rotate_protection(&id, None, Some("fresh"), &h), Ok(()));
    assert_eq!(ks.list()[0].mode, ProtectionMode::Password);
    assert_eq!(ks.list()[0].identity_id, id);
}

#[test]
fn rotate_with_wrong_current_password_changes_nothing() {
    let (nsec, id) = key(HEX_A);
    let mut ks = Keystore::new();
    let h = host("host-a", 1);
    ks.add_protected(&nsec, ProtectionMode::Password, Some("old"), None, &h).unwrap();
    assert_eq!(
        ks.rotate_protection(&id, Some("bad"), Some("new"), &h),
        Err(KeystoreError::AuthenticationFailure)
    );
    assert_eq!(ks.rotate_protection(&id, None, Some("new"), &h), Err(KeystoreError::MissingCredential));
    assert_eq!(ks.rotate_protection("ffff", Some("old"), None, &h), Err(KeystoreError::NotFound));
    assert_eq!(ks.unlock(Some(&id), Some("old"), &h).unwrap(), nsec);
}

#[test]
fn remove_then_list_excludes_identity() {
    let (a, id_a) = key(HEX_A);
    let (b, id_b) = key(HEX_B);
    let mut ks = Keystore::new();
    let h = host("host-a", 1);
    ks.add_protected(&a, ProtectionMode::Password, Some("pa"), None, &h).unwrap();
    ks.add_protected(&b, ProtectionMode::Device, None, None, &h).unwrap();
    assert_eq!(ks.remove(&id_a), Ok(()));
    let list = ks.list();
    assert_eq!(list.len(), 1);
    assert_eq!(list[0].identity_id, id_b);
    assert_eq!(ks.remove(&id_a), Err(KeystoreError::NotFound));
    assert_eq!(ks.len(), 1);
}

// The concrete scenario runs in two tests, each within the time a test is
// given: the key derivation is deliberately slow.
#[test]
fn concrete_scenario_password_phase() {
    let (s1, _) = key(HEX_A);
    let mut ks = Keystore::new();
    let h = host("host-a", 1_700_000_000);
    ks.add_protected(&s1, ProtectionMode::Password, Some("pw1"), Some("main".to_string()), &h)
        .unwrap();
    let list = ks.list();
    assert_eq!(list.len(), 1);
    assert_eq!(list[0].label.as_deref(), Some("main"));
    assert_eq!(list[0].mode, ProtectionMode::Password);
    assert_eq!(list[0].mode.word(), "password");
    assert_eq!(ks.unlock(None, Some("pw1"), &h).unwrap(), s1);
    assert_eq!(ks.unlock(None, Some("wrong"), &h), Err(KeystoreError::AuthenticationFailure));
}

#[test]
fn concrete_scenario_rotation_phase() {
    let (s1, id) = key(HEX_A);
    let mut ks = Keystore::new();
    let h = host("host-a", 1_700_000_000);
    ks.add_protected(&s1, ProtectionMode::Password, Some("pw1"), Some("main".to_string()), &h)
        .unwrap();
    assert_eq!(ks.rotate_protection(&id, Some("pw1"), None, &h), Ok(()));
    let list = ks.list();
    assert_eq!(list.len(), 1);
    assert_eq!(list[0].mode, ProtectionMode::Device);
    assert_eq!(list[0].mode.word(), "device");
    assert_eq!(list[0].label.as_deref(), Some("main"));
    assert_eq!(ks.unlock(Some(&id), None, &h).unwrap(), s1);
}
