//! The settings service: reading, replacing and patching an owner's settings.

use vstd::prelude::*;
use crate::errors::{SettingsError, StorageError};
use crate::fields::{lists, stored_len, Fields};
use crate::repository::{Records, SettingsRepository};
use crate::settings::{
    lemma_patched_empty, lemma_patched_push, patched, Change, OwnerId, PatchOp, SettingsView,
    SimpleUserSettings, SimpleUserSettingsPatch, SimpleUserSettingsUpdate,
};

verus! {

/// The fields that `records` hold for `owner`: none where it has no record.
pub open spec fn current_fields(records: Records, owner: OwnerId) -> Map<Seq<char>, Seq<char>> {
    if records.contains_key(owner) {
        records[owner]
    } else {
        Map::empty()
    }
}

/// The fields of a record that was looked up: none where there is no record.
pub open spec fn fields_of_record(record: Option<SimpleUserSettings>) -> Map<Seq<char>, Seq<char>> {
    match record {
        Some(found) => found@.fields,
        None => Map::empty(),
    }
}

/// Every value of `fields` is at most `limit` bytes long.
pub open spec fn within_limit(fields: Map<Seq<char>, Seq<char>>, limit: nat) -> bool {
    forall|k: Seq<char>| #[trigger] fields.contains_key(k) ==> stored_len(fields[k]) <= limit
}

/// Some step of `steps` names `key`.
pub open spec fn touches(steps: Seq<(Seq<char>, Change)>, key: Seq<char>) -> bool {
    exists|i: int| 0 <= i < steps.len() && #[trigger] steps[i].0 == key
}

/// Every key that `steps` name and that `merged` still holds has a value of at
/// most `limit` bytes. Keys that no step names are not looked at.
pub open spec fn touched_within_limit(
    merged: Map<Seq<char>, Seq<char>>,
    steps: Seq<(Seq<char>, Change)>,
    limit: nat,
) -> bool {
    forall|k: Seq<char>|
        touches(steps, k) && #[trigger] merged.contains_key(k) ==> stored_len(merged[k]) <= limit
}

/// What reading the settings of `owner` may return.
pub open spec fn get_outcome(
    reachable: bool,
    records: Records,
    owner: OwnerId,
    res: Result<SimpleUserSettings, SettingsError>,
) -> bool {
    match res {
        Ok(found) => found@ == (SettingsView {
            owner_id: owner,
            fields: current_fields(records, owner),
        }),
        Err(SettingsError::Storage(_)) => !reachable,
        Err(_) => false,
    }
}

/// What replacing the settings of `owner` by `fields` may return, and what it
/// leaves in the store.
pub open spec fn update_outcome(
    limit: nat,
    reachable: bool,
    before: Records,
    after: Records,
    owner: OwnerId,
    fields: Map<Seq<char>, Seq<char>>,
    res: Result<SimpleUserSettings, SettingsError>,
) -> bool {
    match res {
        Ok(saved) => {
            &&& within_limit(fields, limit)
            &&& saved@ == (SettingsView { owner_id: owner, fields })
            &&& after == before.insert(owner, fields)
        },
        Err(SettingsError::Validation { field, max_length }) => {
            &&& fields.contains_key(field@)
            &&& stored_len(fields[field@]) > limit
            &&& max_length == limit
            &&& after == before
        },
        Err(SettingsError::Storage(_)) => {
            &&& within_limit(fields, limit)
            &&& !reachable
            &&& after == before
        },
        Err(SettingsError::NotInitialized) => false,
    }
}

/// What patching the settings of `owner` by `steps` may return, and what it
/// leaves in the store.
pub open spec fn patch_outcome(
    limit: nat,
    reachable: bool,
    before: Records,
    after: Records,
    owner: OwnerId,
    steps: Seq<(Seq<char>, Change)>,
    res: Result<SimpleUserSettings, SettingsError>,
) -> bool {
    let merged = patched(current_fields(before, owner), steps);
    match res {
        Ok(saved) => {
            &&& touched_within_limit(merged, steps, limit)
            &&& saved@ == (SettingsView { owner_id: owner, fields: merged })
            &&& after == before.insert(owner, merged)
        },
        Err(SettingsError::Validation { field, max_length }) => {
            &&& touches(steps, field@)
            &&& merged.contains_key(field@)
            &&& stored_len(merged[field@]) > limit
            &&& max_length == limit
            &&& after == before
        },
        Err(SettingsError::Storage(_)) => !reachable && after == before,
        Err(SettingsError::NotInitialized) => false,
    }
}

/// Whether `value` is at most `max_length` bytes long.
pub fn fits(value: &str, max_length: usize) -> (ok: bool)
    ensures
        ok == (stored_len(value@) <= max_length),
{
    value.as_bytes().len() <= max_length
}

/// Checks one value against the limit and, where it is too long, names its field.
pub fn validate_field(field: &str, value: &str, max_length: usize) -> (res: Result<
    (),
    SettingsError,
>)
    ensures
        res is Ok <==> stored_len(value@) <= max_length,
        match res {
            Ok(_) => true,
            Err(SettingsError::Validation { field: reported, max_length: limit }) => reported@
                == field@ && limit == max_length,
            Err(_) => false,
        },
{
    if fits(value, max_length) {
        Ok(())
    } else {
        Err(SettingsError::Validation { field: field.to_owned(), max_length })
    }
}

/// Checks every value of a replacement against the limit.
pub fn check_update(fields: &Fields, max_length: usize) -> (res: Result<(), SettingsError>)
    ensures
        res is Ok <==> within_limit(fields@, max_length as nat),
        match res {
            Ok(_) => true,
            Err(SettingsError::Validation { field, max_length: reported }) => {
                &&& fields@.contains_key(field@)
                &&& stored_len(fields@[field@]) > max_length
                &&& reported == max_length
            },
            Err(_) => false,
        },
{
    let n = fields.len();
    let mut i: usize = 0;
    while i < n
        invariant
            i <= n,
            n == fields.pairs().len(),
            lists(fields.pairs(), fields@),
            forall|j: int| 0 <= j < i ==> stored_len(#[trigger] fields.pairs()[j].1) <= max_length,
        decreases n - i,
    {
        if let Some((key, value)) = fields.entry_at(i) {
            let checked = validate_field(key.as_str(), value.as_str(), max_length);
            if checked.is_err() {
                return checked;
            }
        }
        i = i + 1;
    }
    assert forall|k: Seq<char>| #[trigger] fields@.contains_key(k) implies stored_len(fields@[k])
        <= max_length by {
        let ps = fields.pairs();
        let j = choose|j: int| 0 <= j < ps.len() && #[trigger] ps[j].0 == k;
        assert(stored_len(ps[j].1) <= max_length);
    }
    Ok(())
}

/// Applies the steps of a patch, in order, to a field set.
pub fn merge(current: Fields, patch: &SimpleUserSettingsPatch) -> (merged: Fields)
    ensures
        merged@ == patched(current@, patch@),
{
    let ghost start = current@;
    let mut merged = current;
    let n = patch.entries.len();
    let mut i: usize = 0;
    proof {
        lemma_patched_empty(start);
    }
    while i < n
        invariant
            i <= n,
            n == patch.entries@.len(),
            n == patch@.len(),
            merged@ == patched(start, patch@.take(i as int)),
        decreases n - i,
    {
        let entry = &patch.entries[i];
        proof {
            assert(patch@.take(i + 1) =~= patch@.take(i as int).push(patch@[i as int]));
            lemma_patched_push(start, patch@.take(i as int), entry.key@, entry.op@);
        }
        match &entry.op {
            PatchOp::Assign(value) => {
                merged.set(entry.key.clone(), value.clone());
            },
            PatchOp::Remove => {
                merged.remove(entry.key.as_str());
            },
        }
        i = i + 1;
    }
    assert(patch@.take(n as int) =~= patch@);
    merged
}

/// Checks the merged values of the keys that a patch names against the limit.
pub fn check_patch(
    merged: &Fields,
    patch: &SimpleUserSettingsPatch,
    max_length: usize,
) -> (res: Result<(), SettingsError>)
    ensures
        res is Ok <==> touched_within_limit(merged@, patch@, max_length as nat),
        match res {
            Ok(_) => true,
            Err(SettingsError::Validation { field, max_length: reported }) => {
                &&& touches(patch@, field@)
                &&& merged@.contains_key(field@)
                &&& stored_len(merged@[field@]) > max_length
                &&& reported == max_length
            },
            Err(_) => false,
        },
{
    let n = patch.entries.len();
    let mut i: usize = 0;
    while i < n
        invariant
            i <= n,
            n == patch.entries@.len(),
            n == patch@.len(),
            forall|j: int|
                0 <= j < i && merged@.contains_key(#[trigger] patch@[j].0) ==> stored_len(
                    merged@[patch@[j].0],
                ) <= max_length,
        decreases n - i,
    {
        let entry = &patch.entries[i];
        if let Some(value) = merged.get(entry.key.as_str()) {
            let checked = validate_field(entry.key.as_str(), value.as_str(), max_length);
            if checked.is_err() {
                assert(patch@[i as int].0 == entry.key@);
                return checked;
            }
        }
        i = i + 1;
    }
    assert forall|k: Seq<char>| touches(patch@, k) && #[trigger] merged@.contains_key(
        k,
    ) implies stored_len(merged@[k]) <= max_length by {
        let j = choose|j: int| 0 <= j < patch@.len() && #[trigger] patch@[j].0 == k;
        assert(merged@.contains_key(patch@[j].0));
    }
    Ok(())
}

/// Turns what the store found for `owner` into the settings to return: the
/// record, empty settings where there is none, or the store's error as it came.
pub fn settings_from_lookup(
    owner: OwnerId,
    found: Result<Option<SimpleUserSettings>, StorageError>,
) -> (res: Result<SimpleUserSettings, SettingsError>)
    ensures
        match found {
            Ok(Some(record)) => res == Ok::<SimpleUserSettings, SettingsError>(record),
            Ok(None) => res is Ok && res->Ok_0@ == (SettingsView {
                owner_id: owner,
                fields: Map::empty(),
            }),
            Err(e) => res == Err::<SimpleUserSettings, SettingsError>(SettingsError::Storage(e)),
        },
{
    match found {
        Ok(Some(record)) => Ok(record),
        Ok(None) => Ok(SimpleUserSettings::empty(owner)),
        Err(e) => Err(SettingsError::Storage(e)),
    }
}

/// Turns the outcome of a write into the result of the operation: the
/// snapshot that was written, or the store's error as it came.
pub fn settings_after_write(
    saved: SimpleUserSettings,
    done: Result<(), StorageError>,
) -> (res: Result<SimpleUserSettings, SettingsError>)
    ensures
        match done {
            Ok(_) => res == Ok::<SimpleUserSettings, SettingsError>(saved),
            Err(e) => res == Err::<SimpleUserSettings, SettingsError>(SettingsError::Storage(e)),
        },
{
    match done {
        Ok(_) => Ok(saved),
        Err(e) => Err(SettingsError::Storage(e)),
    }
}

/// The validation rules of one service instance.
#[derive(Clone, Copy, Debug, PartialEq, Eq, Structural)]
pub struct ServiceConfig {
    /// The largest number of bytes that one value may have.
    pub max_field_length: usize,
}

/// One service instance: its validation rules, fixed when it is made.
///
/// The store is not part of the instance. Each operation borrows it for the
/// time of the call, which lets the contract say what the call does to it.
#[derive(Debug)]
pub struct Service {
    config: ServiceConfig,
}

impl Service {
    /// The limit on a value's length that this instance enforces.
    pub closed spec fn limit(&self) -> nat {
        self.config.max_field_length as nat
    }

    /// A service with the given rules.
    pub fn new(config: ServiceConfig) -> (service: Service)
        ensures
            service.limit() == config.max_field_length,
    {
        Service { config }
    }

    /// The limit on a value's length that this instance enforces.
    pub fn max_field_length(&self) -> (max_length: usize)
        ensures
            max_length == self.limit(),
    {
        self.config.max_field_length
    }

    /// Decides a replacement without touching a store: the fields to write
    /// when every value is within the limit, or the refusal.
    pub fn plan_update(&self, update: SimpleUserSettingsUpdate) -> (plan: Result<
        Fields,
        SettingsError,
    >)
        ensures
            plan is Ok <==> within_limit(update.fields@, self.limit()),
            match plan {
                Ok(fields) => fields@ == update.fields@,
                Err(SettingsError::Validation { field, max_length }) => {
                    &&& update.fields@.contains_key(field@)
                    &&& stored_len(update.fields@[field@]) > self.limit()
                    &&& max_length == self.limit()
                },
                Err(_) => false,
            },
    {
        match check_update(&update.fields, self.config.max_field_length) {
            Ok(_) => Ok(update.fields),
            Err(e) => Err(e),
        }
    }

    /// Decides a patch without touching a store, from the record that the
    /// store holds for the owner: the merged fields to write when the values
    /// of the keys that the patch names are within the limit, or the refusal.
    pub fn plan_patch(
        &self,
        current: Option<SimpleUserSettings>,
        patch: &SimpleUserSettingsPatch,
    ) -> (plan: Result<Fields, SettingsError>)
        ensures
            plan is Ok <==> touched_within_limit(
                patched(fields_of_record(current), patch@),
                patch@,
                self.limit(),
            ),
            match plan {
                Ok(fields) => fields@ == patched(fields_of_record(current), patch@),
                Err(SettingsError::Validation { field, max_length }) => {
                    &&& touches(patch@, field@)
                    &&& patched(fields_of_record(current), patch@).contains_key(field@)
                    &&& stored_len(patched(fields_of_record(current), patch@)[field@])
                        > self.limit()
                    &&& max_length == self.limit()
                },
                Err(_) => false,
            },
    {
        let start = match current {
            Some(record) => record.fields,
            None => Fields::new(),
        };
        let merged = merge(start, patch);
        match check_patch(&merged, patch, self.config.max_field_length) {
            Ok(_) => Ok(merged),
            Err(e) => Err(e),
        }
    }

    /// Reads the settings of `owner`. An owner without a record has empty settings.
    pub fn get_settings<R: SettingsRepository>(&self, repo: &R, owner: OwnerId) -> (res: Result<
        SimpleUserSettings,
        SettingsError,
    >)
        ensures
            get_outcome(repo.reachable(), repo.records(), owner, res),
            repo.reachable() ==> res is Ok,
            res matches Err(SettingsError::Storage(e)) ==> repo.reports(e),
    {
        settings_from_lookup(owner, repo.get(owner))
    }

    /// Replaces all settings of `owner`. Either every value passes the limit
    /// and the whole set is written, or nothing is.
    pub fn update_settings<R: SettingsRepository>(
        &self,
        repo: &mut R,
        owner: OwnerId,
        update: SimpleUserSettingsUpdate,
    ) -> (res: Result<SimpleUserSettings, SettingsError>)
        ensures
            update_outcome(
                self.limit(),
                old(repo).reachable(),
                old(repo).records(),
                final(repo).records(),
                owner,
                update.fields@,
                res,
            ),
            old(repo).reachable() ==> (res is Ok <==> within_limit(update.fields@, self.limit())),
            res matches Err(SettingsError::Storage(e)) ==> old(repo).reports(e),
            final(repo).reachable() == old(repo).reachable(),
    {
        match self.plan_update(update) {
            Err(e) => Err(e),
            Ok(fields) => {
                let saved = SimpleUserSettings { owner_id: owner, fields: fields.clone() };
                let done = repo.upsert(owner, fields);
                settings_after_write(saved, done)
            },
        }
    }

    /// Applies a patch to the settings of `owner`: reads them, merges the
    /// steps, checks the values of the keys that the patch names, and writes the
    /// merged set. A failure leaves the store as it was.
    pub fn patch_settings<R: SettingsRepository>(
        &self,
        repo: &mut R,
        owner: OwnerId,
        patch: &SimpleUserSettingsPatch,
    ) -> (res: Result<SimpleUserSettings, SettingsError>)
        ensures
            patch_outcome(
                self.limit(),
                old(repo).reachable(),
                old(repo).records(),
                final(repo).records(),
                owner,
                patch@,
                res,
            ),
            old(repo).reachable() ==> (res is Ok <==> touched_within_limit(
                patched(current_fields(old(repo).records(), owner), patch@),
                patch@,
                self.limit(),
            )),
            res matches Err(SettingsError::Storage(e)) ==> old(repo).reports(e),
            final(repo).reachable() == old(repo).reachable(),
    {
        match repo.get(owner) {
            Err(e) => Err(SettingsError::Storage(e)),
            Ok(current) => match self.plan_patch(current, patch) {
                Err(e) => Err(e),
                Ok(merged) => {
                    let saved = SimpleUserSettings { owner_id: owner, fields: merged.clone() };
                    let done = repo.upsert(owner, merged);
                    settings_after_write(saved, done)
                },
            },
        }
    }
}

} // verus!
