//! The keystore aggregate: an ordered collection of protected entries with at
//! most one entry per identity, and its conversion to and from the persisted
//! format, including the eager migration of a legacy record.
use vstd::prelude::*;

use crate::error::KeystoreError;
use crate::record::{
    entry_record, info_of, migrated_record, record_entry, text_opt, EntryView, FileView, InfoView,
    KeyEntry, KeyInfo, KeystoreFile, LegacyView, StoredEntryView, StoredKeyEntry, StoredKeyFileV1,
    FORMAT_VERSION, migrate_legacy,
};

verus! {

/// No two entries share an identity.
pub open spec fn unique_ids(s: Seq<EntryView>) -> bool {
    forall|i: int, j: int|
        0 <= i < s.len() && 0 <= j < s.len() && i != j ==> #[trigger] s[i].identity_id
            != #[trigger] s[j].identity_id
}

/// Some entry has this identity.
pub open spec fn has_id(s: Seq<EntryView>, id: Seq<char>) -> bool {
    exists|i: int| 0 <= i < s.len() && #[trigger] s[i].identity_id == id
}

/// The position of an entry with this identity, where there is one.
pub open spec fn index_of(s: Seq<EntryView>, id: Seq<char>) -> int {
    choose|i: int| 0 <= i < s.len() && #[trigger] s[i].identity_id == id
}

/// The entries without the one of this identity.
pub open spec fn without_id(s: Seq<EntryView>, id: Seq<char>) -> Seq<EntryView> {
    if has_id(s, id) {
        s.remove(index_of(s, id))
    } else {
        s
    }
}

/// The entries after adding `e`: any entry of its identity leaves, and `e`
/// comes last.
pub open spec fn upserted(s: Seq<EntryView>, e: EntryView) -> Seq<EntryView> {
    without_id(s, e.identity_id).push(e)
}

/// The entries after the entry of this identity takes a new label.
pub open spec fn relabelled(s: Seq<EntryView>, id: Seq<char>, label: Option<Seq<char>>) -> Seq<
    EntryView,
> {
    s.update(index_of(s, id), EntryView { label, ..s[index_of(s, id)] })
}

/// The entry an operation works on: the one of the given identity, or the
/// first one where no identity is given.
pub open spec fn selected(s: Seq<EntryView>, id: Option<Seq<char>>) -> Option<EntryView> {
    match id {
        Some(id) => if has_id(s, id) {
            Some(s[index_of(s, id)])
        } else {
            None
        },
        None => if s.len() > 0 {
            Some(s[0])
        } else {
            None
        },
    }
}

/// The listing of a keystore, entry by entry.
pub open spec fn listing(s: Seq<EntryView>) -> Seq<InfoView> {
    s.map_values(|e: EntryView| info_of(e))
}

/// The entries that a persisted keystore stands for, or `None` where an
/// entry has an unknown mode or two entries share an identity.
pub open spec fn file_entries(keys: Seq<StoredEntryView>) -> Option<Seq<EntryView>> {
    if forall|i: int| 0 <= i < keys.len() ==> #[trigger] record_entry(keys[i]) is Some {
        let s = keys.map_values(|k: StoredEntryView| record_entry(k)->0);
        if unique_ids(s) {
            Some(s)
        } else {
            None
        }
    } else {
        None
    }
}

/// What loading gives, from what the persisted text parsed as: the current
/// format when it parsed as such with the current version, else the legacy
/// format, migrated; the entries and whether a migration took place.
pub open spec fn load_outcome(current: Option<FileView>, legacy: Option<LegacyView>) -> Result<
    (Seq<EntryView>, bool),
    KeystoreError,
> {
    if current matches Some(f) && f.version == FORMAT_VERSION {
        match file_entries(current->0.keys) {
            Some(s) => Ok((s, false)),
            None => Err(KeystoreError::FormatError),
        }
    } else {
        match legacy {
            Some(v1) => match file_entries(seq![migrated_record(v1)]) {
                Some(s) => Ok((s, true)),
                None => Err(KeystoreError::FormatError),
            },
            None => Err(KeystoreError::FormatError),
        }
    }
}

/// The protected entries, at most one per identity, in the order they were
/// added.
#[derive(Debug)]
pub struct Keystore {
    entries: Vec<KeyEntry>,
}

/// A loaded keystore, and whether it came from the legacy format, in which
/// case it must be persisted again at once.
#[derive(Debug)]
pub struct LoadedKeystore {
    pub keystore: Keystore,
    pub migrated: bool,
}

impl View for Keystore {
    type V = Seq<EntryView>;

    closed spec fn view(&self) -> Seq<EntryView> {
        self.entries@.map_values(|e: KeyEntry| e@)
    }
}

impl Keystore {
    /// The invariant: one entry per identity.
    pub open spec fn wf(&self) -> bool {
        unique_ids(self@)
    }

    /// An empty keystore.
    pub fn new() -> (r: Keystore)
        ensures
            r.wf(),
            r@ == Seq::<EntryView>::empty(),
    {
        let r = Keystore { entries: Vec::new() };
        assert(r@ =~= Seq::<EntryView>::empty());
        r
    }

    /// Number of entries.
    pub fn len(&self) -> (r: usize)
        ensures
            r == self@.len(),
    {
        self.entries.len()
    }

    /// The entry at a position.
    pub fn entry(&self, i: usize) -> (r: &KeyEntry)
        requires
            i < self@.len(),
        ensures
            r@ == self@[i as int],
    {
        &self.entries[i]
    }

    /// The position of the entry of this identity.
    pub fn position(&self, identity_id: &str) -> (r: Option<usize>)
        ensures
            match r {
                Some(i) => i < self@.len() && self@[i as int].identity_id == identity_id@,
                None => !has_id(self@, identity_id@),
            },
    {
        let target = identity_id.to_owned();
        let mut i: usize = 0;
        while i < self.entries.len()
            invariant
                i <= self.entries@.len(),
                target@ == identity_id@,
                forall|j: int| 0 <= j < i ==> self@[j].identity_id != identity_id@,
            decreases self.entries@.len() - i,
        {
            if self.entries[i].identity_id == target {
                return Some(i);
            }
            i = i + 1;
        }
        None
    }

    /// What a listing shows of every entry, in order.
    pub fn list(&self) -> (r: Vec<KeyInfo>)
        ensures
            r@.map_values(|k: KeyInfo| k@) == listing(self@),
    {
        let mut out: Vec<KeyInfo> = Vec::new();
        let mut i: usize = 0;
        while i < self.entries.len()
            invariant
                i <= self.entries@.len(),
                out@.len() == i,
                forall|j: int| 0 <= j < i ==> #[trigger] out@[j]@ == info_of(self@[j]),
            decreases self.entries@.len() - i,
        {
            let info = self.entries[i].info();
            out.push(info);
            i = i + 1;
        }
        assert(out@.map_values(|k: KeyInfo| k@) =~= listing(self@));
        out
    }

    /// Adds an entry, replacing any entry of the same identity; the new entry
    /// comes last.
    pub fn upsert(&mut self, entry: KeyEntry)
        requires
            old(self).wf(),
        ensures
            final(self).wf(),
            final(self)@ == upserted(old(self)@, entry@),
    {
        let ghost before = self@;
        match self.position(entry.identity_id.as_str()) {
            Some(i) => {
                self.entries.remove(i);
                assert(self@ =~= before.remove(i as int));
            },
            None => {},
        }
        proof {
            lemma_without_id(before, entry@.identity_id);
        }
        let ghost mid = self@;
        assert(mid == without_id(before, entry@.identity_id));
        self.entries.push(entry);
        assert(self@ =~= mid.push(entry@));
    }

    /// Removes the entry of this identity; where there is none, nothing
    /// changes and the error is `NotFound`.
    pub fn remove(&mut self, identity_id: &str) -> (r: Result<(), KeystoreError>)
        requires
            old(self).wf(),
        ensures
            final(self).wf(),
            r is Ok <==> has_id(old(self)@, identity_id@),
            r is Ok ==> final(self)@ == without_id(old(self)@, identity_id@),
            r matches Err(e) ==> e == KeystoreError::NotFound && final(self)@ == old(self)@,
    {
        let ghost before = self@;
        match self.position(identity_id) {
            Some(i) => {
                self.entries.remove(i);
                assert(self@ =~= before.remove(i as int));
                proof {
                    lemma_without_id(before, identity_id@);
                }
                Ok(())
            },
            None => Err(KeystoreError::NotFound),
        }
    }

    /// Gives the entry of this identity a new label; where there is none,
    /// nothing changes and the error is `NotFound`.
    pub fn relabel(&mut self, identity_id: &str, label: Option<String>) -> (r: Result<
        (),
        KeystoreError,
    >)
        requires
            old(self).wf(),
        ensures
            final(self).wf(),
            r is Ok <==> has_id(old(self)@, identity_id@),
            r is Ok ==> final(self)@ == relabelled(old(self)@, identity_id@, text_opt(label)),
            r matches Err(e) ==> e == KeystoreError::NotFound && final(self)@ == old(self)@,
    {
        let ghost before = self@;
        match self.position(identity_id) {
            Some(i) => {
                proof {
                    lemma_index_of(before, identity_id@, i as int);
                }
                let mut entry = self.entries.remove(i);
                entry.label = label;
                self.entries.insert(i, entry);
                assert(self@ =~= relabelled(before, identity_id@, text_opt(label)));
                Ok(())
            },
            None => Err(KeystoreError::NotFound),
        }
    }
    /// The persisted form, in the current format.
    pub fn to_file(&self) -> (r: KeystoreFile)
        ensures
            r@ == (FileView {
                version: FORMAT_VERSION,
                keys: self@.map_values(|e: EntryView| entry_record(e)),
            }),
    {
        let mut keys: Vec<StoredKeyEntry> = Vec::new();
        let mut i: usize = 0;
        while i < self.entries.len()
            invariant
                i <= self.entries@.len(),
                keys@.len() == i,
                forall|j: int| 0 <= j < i ==> #[trigger] keys@[j]@ == entry_record(self@[j]),
            decreases self.entries@.len() - i,
        {
            let record = self.entries[i].to_record();
            keys.push(record);
            i = i + 1;
        }
        let r = KeystoreFile { version: FORMAT_VERSION, keys };
        assert(r@.keys =~= self@.map_values(|e: EntryView| entry_record(e)));
        r
    }

    /// The keystore that a current-format file stands for; an entry of an
    /// unknown mode, or two entries of one identity, are a format error.
    pub fn from_file(file: &KeystoreFile) -> (r: Result<Keystore, KeystoreError>)
        ensures
            match file_entries(file@.keys) {
                Some(s) => r matches Ok(k) && k.wf() && k@ == s,
                None => r matches Err(e) && e == KeystoreError::FormatError,
            },
    {
        let ghost keys = file@.keys;
        let ghost s = keys.map_values(|k: StoredEntryView| record_entry(k)->0);
        let mut ks = Keystore::new();
        let mut i: usize = 0;
        while i < file.keys.len()
            invariant
                keys == file@.keys,
                s == keys.map_values(|k: StoredEntryView| record_entry(k)->0),
                i <= keys.len(),
                ks.wf(),
                ks@.len() == i,
                forall|j: int| 0 <= j < i ==> #[trigger] record_entry(keys[j]) is Some,
                forall|j: int| 0 <= j < i ==> #[trigger] ks@[j] == s[j],
            decreases keys.len() - i,
        {
            assert(keys[i as int] == file.keys@[i as int]@);
            let entry = match KeyEntry::from_record(&file.keys[i]) {
                Ok(e) => e,
                Err(e) => {
                    assert(record_entry(keys[i as int]) is None);
                    return Err(e);
                },
            };
            assert(s[i as int] == entry@);
            if let Some(j) = ks.position(entry.identity_id.as_str()) {
                assert(s[j as int].identity_id == s[i as int].identity_id);
                assert(!unique_ids(s));
                return Err(KeystoreError::FormatError);
            }
            let ghost before = ks@;
            ks.entries.push(entry);
            assert(ks@ =~= before.push(entry@));
            i = i + 1;
        }
        assert(ks@ =~= s);
        Ok(ks)
    }
}

/// The value of a load result: the entries and whether they were migrated.
pub open spec fn loaded_outcome(r: Result<LoadedKeystore, KeystoreError>) -> Result<
    (Seq<EntryView>, bool),
    KeystoreError,
> {
    match r {
        Ok(l) => Ok((l.keystore@, l.migrated)),
        Err(e) => Err(e),
    }
}

/// The value of an optional current-format file.
pub open spec fn file_view_opt(f: Option<KeystoreFile>) -> Option<FileView> {
    match f {
        Some(f) => Some(f@),
        None => None,
    }
}

/// The value of an optional legacy record.
pub open spec fn legacy_view_opt(v: Option<StoredKeyFileV1>) -> Option<LegacyView> {
    match v {
        Some(v) => Some(v@),
        None => None,
    }
}

/// Chooses what a persisted keystore holds, from what its text parsed as in
/// the current format and in the legacy one (`None` where it did not parse).
/// A current-format file of the current version wins; otherwise a legacy
/// record is migrated, and the caller must persist the result before using
/// it; otherwise the file is a format error. Nothing is guessed or partly
/// recovered.
pub fn load_keystore(current: Option<KeystoreFile>, legacy: Option<StoredKeyFileV1>) -> (r: Result<
    LoadedKeystore,
    KeystoreError,
>)
    ensures
        loaded_outcome(r) == load_outcome(file_view_opt(current), legacy_view_opt(legacy)),
        r matches Ok(l) ==> l.keystore.wf(),
{
    if let Some(file) = &current {
        if file.version == FORMAT_VERSION {
            return match Keystore::from_file(file) {
                Ok(keystore) => Ok(LoadedKeystore { keystore, migrated: false }),
                Err(e) => Err(e),
            };
        }
    }
    match &legacy {
        Some(v1) => {
            let file = migrate_legacy(v1);
            match Keystore::from_file(&file) {
                Ok(keystore) => Ok(LoadedKeystore { keystore, migrated: true }),
                Err(e) => Err(e),
            }
        },
        None => Err(KeystoreError::FormatError),
    }

}

/// Removing the entry at the position of an identity is what `without_id`
/// says, and keeps identities unique.
pub proof fn lemma_without_id(s: Seq<EntryView>, id: Seq<char>)
    requires
        unique_ids(s),
    ensures
        unique_ids(without_id(s, id)),
        !has_id(without_id(s, id), id),
        has_id(s, id) ==> without_id(s, id).len() + 1 == s.len(),
        forall|i: int|
            0 <= i < s.len() && s[i].identity_id == id ==> without_id(s, id) == s.remove(i),
{
    if has_id(s, id) {
        let k = index_of(s, id);
        assert(0 <= k < s.len() && s[k].identity_id == id);
        let t = s.remove(k);
        assert forall|i: int| 0 <= i < t.len() implies t[i].identity_id != id by {
            if i < k {
                assert(t[i] == s[i]);
            } else {
                assert(t[i] == s[i + 1]);
            }
        }
    }
}

/// With unique identities, the chosen position of an identity is the only
/// one.
pub proof fn lemma_index_of(s: Seq<EntryView>, id: Seq<char>, i: int)
    requires
        unique_ids(s),
        0 <= i < s.len(),
        s[i].identity_id == id,
    ensures
        has_id(s, id),
        index_of(s, id) == i,
{
}

} // verus!
