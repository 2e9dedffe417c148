//! How settings records are fetched and stored, and a store held in memory.

use std::collections::HashMap;
use vstd::prelude::*;
use crate::errors::StorageError;
use crate::fields::Fields;
use crate::settings::{OwnerId, SettingsView, SimpleUserSettings};

verus! {

broadcast use vstd::std_specs::hash::group_hash_axioms;

/// The durable records as a plain value: for each owner that has a record, its fields.
pub type Records = Map<OwnerId, Map<Seq<char>, Seq<char>>>;

/// A durable store of settings, one record per owner.
///
/// A store validates nothing. A write replaces the owner's whole field set or,
/// when it fails, leaves every record as it was.
pub trait SettingsRepository {
    /// What the store holds.
    spec fn records(&self) -> Records;

    /// Whether the backend answers. A store that cannot promise this says `false`,
    /// and may then still succeed.
    spec fn reachable(&self) -> bool;

    /// Whether `e` is an error with which this store fails a call.
    spec fn reports(&self, e: StorageError) -> bool;

    /// Fetches the record of `owner`. An owner without a record is no error.
    fn get(&self, owner: OwnerId) -> (found: Result<Option<SimpleUserSettings>, StorageError>)
        ensures
            self.reachable() ==> found is Ok,
            found matches Err(e) ==> self.reports(e),
            match found {
                Ok(Some(record)) => self.records().contains_key(owner) && record@ == (SettingsView {
                    owner_id: owner,
                    fields: self.records()[owner],
                }),
                Ok(None) => !self.records().contains_key(owner),
                Err(_) => true,
            },
    ;

    /// Creates the record of `owner` or replaces all of its fields.
    fn upsert(&mut self, owner: OwnerId, fields: Fields) -> (done: Result<(), StorageError>)
        ensures
            old(self).reachable() ==> done is Ok,
            done matches Err(e) ==> old(self).reports(e),
            final(self).reachable() == old(self).reachable(),
            match done {
                Ok(_) => final(self).records() == old(self).records().insert(owner, fields@),
                Err(_) => final(self).records() == old(self).records(),
            },
    ;
}

/// What a store that is switched off answers.
pub open spec fn switched_off(e: StorageError) -> bool {
    e.reason@ == "store is switched off"@
}

/// A store that keeps its records in memory.
///
/// It can be switched off to stand for a backend that cannot be reached:
/// every call then fails and changes nothing.
pub struct MemoryRepository {
    rows: HashMap<u128, Fields>,
    online: bool,
}

impl MemoryRepository {
    /// An empty store that is switched on.
    pub fn new() -> (repo: MemoryRepository)
        ensures
            repo.records() == Records::empty(),
            repo.reachable(),
    {
        MemoryRepository { rows: HashMap::new(), online: true }
    }

    /// Switches the store on or off. The records stay.
    pub fn set_reachable(&mut self, reachable: bool)
        ensures
            final(self).reachable() == reachable,
            final(self).records() == old(self).records(),
    {
        self.online = reachable;
    }

    /// The number of owners that have a record.
    pub fn len(&self) -> (n: usize)
        ensures
            n == self.records().dom().len(),
    {
        proof {
            self.lemma_owner_count();
        }
        self.rows.len()
    }

    proof fn lemma_owner_count(&self)
        ensures
            self.records().dom().finite(),
            self.records().dom().len() == self.rows@.dom().len(),
    {
        let raw = self.rows@.dom();
        let owners = self.records().dom();
        assert forall|o: OwnerId| owners.contains(o) implies raw.map(|k: u128| OwnerId(k)).contains(
            o,
        ) by {
            assert(raw.contains(o.0));
        }
        assert(owners =~= raw.map(|k: u128| OwnerId(k)));
        vstd::set_lib::lemma_map_size(raw, owners, |k: u128| OwnerId(k));
    }
}

impl SettingsRepository for MemoryRepository {
    closed spec fn records(&self) -> Records {
        Map::new(|o: OwnerId| self.rows@.contains_key(o.0), |o: OwnerId| self.rows@[o.0]@)
    }

    closed spec fn reachable(&self) -> bool {
        self.online
    }

    open spec fn reports(&self, e: StorageError) -> bool {
        switched_off(e)
    }

    fn get(&self, owner: OwnerId) -> (found: Result<Option<SimpleUserSettings>, StorageError>)
        ensures
            !self.reachable() ==> found is Err,
    {
        if !self.online {
            return Err(StorageError { reason: "store is switched off".to_owned() });
        }
        match self.rows.get(&owner.0) {
            Some(fields) => Ok(Some(SimpleUserSettings { owner_id: owner, fields: fields.clone() })),
            None => Ok(None),
        }
    }

    fn upsert(&mut self, owner: OwnerId, fields: Fields) -> (done: Result<(), StorageError>)
        ensures
            !old(self).reachable() ==> done is Err,
    {
        if !self.online {
            return Err(StorageError { reason: "store is switched off".to_owned() });
        }
        let ghost written = fields@;
        self.rows.insert(owner.0, fields);
        assert(self.records() =~= old(self).records().insert(owner, written));
        Ok(())
    }
}

} // verus!
