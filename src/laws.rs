//! Properties that relate several keystore operations, stated over the same
//! models as the operations' own contracts and proved from them.
use vstd::prelude::*;

use crate::cipher::decrypted;
use crate::error::KeystoreError;
use crate::external::nostr_public_id;
use crate::keystore::{
    file_entries, has_id, index_of, lemma_index_of, lemma_without_id, listing, load_outcome,
    selected, unique_ids, upserted, without_id,
};
use crate::manager::{
    added, entry_key, protects, rotate_check, rotated_mode, rotated_password, unlock_outcome,
};
use crate::record::{
    entry_record, migrated_record, mode_of, mode_word, record_entry, EntryView, FileView, LegacyView,
    ProtectionMode, ProtectionView, FORMAT_VERSION,
};

verus! {

/// After adding an entry, identities stay unique and the entry is the one
/// selected by its identity, in the last position.
pub proof fn lemma_upserted(before: Seq<EntryView>, e: EntryView)
    requires
        unique_ids(before),
    ensures
        unique_ids(upserted(before, e)),
        has_id(upserted(before, e), e.identity_id),
        index_of(upserted(before, e), e.identity_id) == upserted(before, e).len() - 1,
        selected(upserted(before, e), Some(e.identity_id)) == Some(e),
        upserted(before, e).len() == if has_id(before, e.identity_id) {
            before.len()
        } else {
            before.len() + 1
        },
{
    lemma_without_id(before, e.identity_id);
    let mid = without_id(before, e.identity_id);
    let after = upserted(before, e);
    assert forall|i: int, j: int|
        0 <= i < after.len() && 0 <= j < after.len() && i != j implies #[trigger] after[i].identity_id
        != #[trigger] after[j].identity_id by {
        if i == after.len() - 1 {
            assert(after[j] == mid[j]);
        } else if j == after.len() - 1 {
            assert(after[i] == mid[i]);
        } else {
            assert(after[i] == mid[i] && after[j] == mid[j]);
        }
    }
    lemma_index_of(after, e.identity_id, after.len() - 1);
}

/// An entry added with some credentials opens again with the same
/// credentials and gives back the secret it was added with.
proof fn lemma_round_trip(
    before: Seq<EntryView>,
    after: Seq<EntryView>,
    secret: Seq<char>,
    mode: ProtectionMode,
    password: Option<Seq<char>>,
    machine_id: Option<Seq<char>>,
    label: Option<Seq<char>>,
    now: u64,
)
    requires
        unique_ids(before),
        added(before, after, secret, mode, password, machine_id, label, now),
    ensures
        nostr_public_id(secret) is Some,
        unlock_outcome(after, nostr_public_id(secret), password, machine_id) == Ok::<
            Seq<char>,
            KeystoreError,
        >(secret),
{
    let e = choose|e: EntryView|
        protects(e, secret, mode, password, machine_id, label, now) && after == #[trigger] upserted(
            before,
            e,
        );
    lemma_upserted(before, e);
}

/// Round trip under password protection: the secret added with a password
/// is what unlocking its identity with that password returns.
pub proof fn lemma_password_round_trip(
    before: Seq<EntryView>,
    after: Seq<EntryView>,
    secret: Seq<char>,
    password: Seq<char>,
    machine_id: Option<Seq<char>>,
    label: Option<Seq<char>>,
    now: u64,
)
    requires
        unique_ids(before),
        added(before, after, secret, ProtectionMode::Password, Some(password), machine_id, label, now),
    ensures
        nostr_public_id(secret) is Some,
        unlock_outcome(after, nostr_public_id(secret), Some(password), machine_id) == Ok::<
            Seq<char>,
            KeystoreError,
        >(secret),
{
    lemma_round_trip(before, after, secret, ProtectionMode::Password, Some(password), machine_id, label, now);
}

/// Round trip under device protection: on a host with the same machine
/// identifier, at any later time, unlocking without a password returns the
/// secret that was added.
pub proof fn lemma_device_round_trip(
    before: Seq<EntryView>,
    after: Seq<EntryView>,
    secret: Seq<char>,
    machine_id: Seq<char>,
    label: Option<Seq<char>>,
    now: u64,
)
    requires
        unique_ids(before),
        added(before, after, secret, ProtectionMode::Device, None, Some(machine_id), label, now),
    ensures
        nostr_public_id(secret) is Some,
        unlock_outcome(after, nostr_public_id(secret), None, Some(machine_id)) == Ok::<
            Seq<char>,
            KeystoreError,
        >(secret),
{
    lemma_round_trip(before, after, secret, ProtectionMode::Device, None, Some(machine_id), label, now);
}

/// Unlocking never hands over a secret of another identity than the
/// selected entry's, and a ciphertext that does not authenticate under the
/// derived key is reported as an authentication failure.
pub proof fn lemma_unlock_yields_own_identity(
    s: Seq<EntryView>,
    identity_id: Option<Seq<char>>,
    password: Option<Seq<char>>,
    machine_id: Option<Seq<char>>,
)
    ensures
        unlock_outcome(s, identity_id, password, machine_id) matches Ok(secret) ==> selected(
            s,
            identity_id,
        ) matches Some(e) && nostr_public_id(secret) == Some(e.identity_id),
        selected(s, identity_id) matches Some(e) && entry_key(e.protection, password, machine_id)
            matches Ok(key) && decrypted(key, e.nonce, e.ciphertext) == Err::<
            Seq<char>,
            KeystoreError,
        >(KeystoreError::AuthenticationFailure) ==> unlock_outcome(
            s,
            identity_id,
            password,
            machine_id,
        ) == Err::<Seq<char>, KeystoreError>(KeystoreError::AuthenticationFailure),
{
}

/// Adding a second secret of the same identity replaces the first: the
/// number of entries does not change and exactly one entry, the last, has
/// that identity.
pub proof fn lemma_same_identity_replaces(
    before: Seq<EntryView>,
    mid: Seq<EntryView>,
    after: Seq<EntryView>,
    first: Seq<char>,
    second: Seq<char>,
    mode1: ProtectionMode,
    password1: Option<Seq<char>>,
    mode2: ProtectionMode,
    password2: Option<Seq<char>>,
    machine_id1: Option<Seq<char>>,
    machine_id2: Option<Seq<char>>,
    label1: Option<Seq<char>>,
    label2: Option<Seq<char>>,
    now1: u64,
    now2: u64,
)
    requires
        unique_ids(before),
        added(before, mid, first, mode1, password1, machine_id1, label1, now1),
        added(mid, after, second, mode2, password2, machine_id2, label2, now2),
        nostr_public_id(first) == nostr_public_id(second),
    ensures
        after.len() == mid.len(),
        listing(after).len() == listing(mid).len(),
        unique_ids(after),
        forall|i: int|
            0 <= i < after.len() && #[trigger] after[i].identity_id == nostr_public_id(second)->0
                ==> i == after.len() - 1,
{
    let e1 = choose|e: EntryView|
        protects(e, first, mode1, password1, machine_id1, label1, now1) && mid == #[trigger] upserted(
            before,
            e,
        );
    lemma_upserted(before, e1);
    let e2 = choose|e: EntryView|
        protects(e, second, mode2, password2, machine_id2, label2, now2) && after == #[trigger] upserted(
            mid,
            e,
        );
    lemma_upserted(mid, e2);
    assert(has_id(mid, e2.identity_id));
}

/// After a removal no entry, and so no listed entry, has the removed
/// identity; removing an absent identity changes nothing.
pub proof fn lemma_removal_excludes(s: Seq<EntryView>, identity_id: Seq<char>)
    requires
        unique_ids(s),
    ensures
        !has_id(without_id(s, identity_id), identity_id),
        forall|i: int|
            0 <= i < listing(without_id(s, identity_id)).len() ==> #[trigger] listing(
                without_id(s, identity_id),
            )[i].identity_id != identity_id,
        !has_id(s, identity_id) ==> without_id(s, identity_id) == s,
{
    lemma_without_id(s, identity_id);
    let t = without_id(s, identity_id);
    assert forall|i: int| 0 <= i < listing(t).len() implies #[trigger] listing(t)[i].identity_id
        != identity_id by {
        assert(listing(t)[i].identity_id == t[i].identity_id);
    }
}

/// Rotation keeps the identity and the label of the entry, moves it to the
/// new mode, and the new credentials unlock the same secret that the
/// current ones did.
pub proof fn lemma_rotation_preserves_identity_and_label(
    before: Seq<EntryView>,
    after: Seq<EntryView>,
    identity_id: Seq<char>,
    current_password: Option<Seq<char>>,
    new_password: Option<Seq<char>>,
    machine_id: Option<Seq<char>>,
    now: u64,
)
    requires
        unique_ids(before),
        rotate_check(before, identity_id, current_password, new_password, machine_id) is Ok,
        added(
            before,
            after,
            unlock_outcome(before, Some(identity_id), current_password, machine_id)->Ok_0,
            rotated_mode(new_password),
            rotated_password(new_password),
            machine_id,
            selected(before, Some(identity_id))->0.label,
            now,
        ),
    ensures
        selected(before, Some(identity_id)) is Some,
        selected(after, Some(identity_id)) matches Some(e) && e.identity_id == identity_id
            && e.label == selected(before, Some(identity_id))->0.label && mode_of(e.protection)
            == rotated_mode(new_password),
        unlock_outcome(after, Some(identity_id), rotated_password(new_password), machine_id)
            == unlock_outcome(before, Some(identity_id), current_password, machine_id),
{
    let secret = unlock_outcome(before, Some(identity_id), current_password, machine_id)->Ok_0;
    let label = selected(before, Some(identity_id))->0.label;
    let mode = rotated_mode(new_password);
    let password = rotated_password(new_password);
    let e = choose|e: EntryView|
        protects(e, secret, mode, password, machine_id, label, now) && after == #[trigger] upserted(
            before,
            e,
        );
    lemma_upserted(before, e);
    lemma_round_trip(before, after, secret, mode, password, machine_id, label, now);
}

/// A persisted entry reads back as itself.
pub proof fn lemma_record_round_trip(e: EntryView)
    ensures
        record_entry(entry_record(e)) == Some(e),
{
    reveal_strlit("password");
    reveal_strlit("device");
    assert(mode_word(ProtectionMode::Password) != mode_word(ProtectionMode::Device)) by {
        assert(mode_word(ProtectionMode::Password).len() != mode_word(ProtectionMode::Device).len());
    }
    match e.protection {
        ProtectionView::Password { salt } => {},
        ProtectionView::Device => {},
    }
}

/// A keystore persisted in the current format loads back as the same
/// entries, without migration, whatever the legacy parse gave.
pub proof fn lemma_persisted_reloads(s: Seq<EntryView>, legacy: Option<LegacyView>)
    requires
        unique_ids(s),
    ensures
        load_outcome(
            Some(FileView { version: FORMAT_VERSION, keys: s.map_values(|e: EntryView| entry_record(e)) }),
            legacy,
        ) == Ok::<(Seq<EntryView>, bool), KeystoreError>((s, false)),
{
    let keys = s.map_values(|e: EntryView| entry_record(e));
    assert forall|i: int| 0 <= i < keys.len() implies #[trigger] record_entry(keys[i]) == Some(s[i]) by {
        lemma_record_round_trip(s[i]);
    }
    let back = keys.map_values(|k| record_entry(k)->0);
    assert(back =~= s);
    assert(file_entries(keys) == Some(s));
}

/// Migration is one-shot and stable: a legacy record with a known mode
/// loads as a single current-format entry, marked as migrated; once that is
/// persisted, loading again gives the same single entry without migration.
pub proof fn lemma_migration_idempotent(v1: LegacyView, legacy_again: Option<LegacyView>)
    requires
        record_entry(migrated_record(v1)) is Some,
    ensures
        load_outcome(None, Some(v1)) == Ok::<(Seq<EntryView>, bool), KeystoreError>(
            (seq![record_entry(migrated_record(v1))->0], true),
        ),
        load_outcome(
            Some(
                FileView {
                    version: FORMAT_VERSION,
                    keys: seq![entry_record(record_entry(migrated_record(v1))->0)],
                },
            ),
            legacy_again,
        ) == Ok::<(Seq<EntryView>, bool), KeystoreError>(
            (seq![record_entry(migrated_record(v1))->0], false),
        ),
{
    let e = record_entry(migrated_record(v1))->0;
    let keys = seq![migrated_record(v1)];
    assert(keys.map_values(|k: crate::record::StoredEntryView| record_entry(k)->0) =~= seq![e]);
    assert(file_entries(keys) == Some(seq![e]));
    let s = seq![e];
    lemma_persisted_reloads(s, legacy_again);
    assert(s.map_values(|x: EntryView| entry_record(x)) =~= seq![entry_record(e)]);
}

} // verus!
