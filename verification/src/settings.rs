//! The values that callers exchange with the settings service.

use vstd::prelude::*;
use crate::fields::Fields;

verus! {

/// Identifies the owner of one set of settings.
#[derive(Clone, Copy, Debug, PartialEq, Eq, Structural, Hash)]
pub struct OwnerId(pub u128);

/// The settings of one owner, as a snapshot.
#[derive(Debug, PartialEq, Eq)]
pub struct SimpleUserSettings {
    pub owner_id: OwnerId,
    pub fields: Fields,
}

/// What a snapshot stands for: the owner and the mapping from key to value.
pub struct SettingsView {
    pub owner_id: OwnerId,
    pub fields: Map<Seq<char>, Seq<char>>,
}

impl View for SimpleUserSettings {
    type V = SettingsView;

    open spec fn view(&self) -> SettingsView {
        SettingsView { owner_id: self.owner_id, fields: self.fields@ }
    }
}

impl SimpleUserSettings {
    /// The settings of an owner for whom nothing was written yet.
    pub fn empty(owner_id: OwnerId) -> (settings: SimpleUserSettings)
        ensures
            settings@ == (SettingsView { owner_id, fields: Map::empty() }),
    {
        SimpleUserSettings { owner_id, fields: Fields::new() }
    }
}

impl Clone for SimpleUserSettings {
    fn clone(&self) -> (copy: SimpleUserSettings)
        ensures
            copy@ == self@,
    {
        SimpleUserSettings { owner_id: self.owner_id, fields: self.fields.clone() }
    }
}

/// A full replacement of an owner's field set.
#[derive(Debug, PartialEq, Eq)]
pub struct SimpleUserSettingsUpdate {
    pub fields: Fields,
}

/// What a patch does to one key.
#[derive(Debug, PartialEq, Eq)]
pub enum PatchOp {
    /// Write this value, whether or not the key was set.
    Assign(String),
    /// Delete the key.
    Remove,
}

/// What a patch step does to its key, as a plain value.
pub enum Change {
    Assign(Seq<char>),
    Remove,
}

impl View for PatchOp {
    type V = Change;

    open spec fn view(&self) -> Change {
        match self {
            PatchOp::Assign(value) => Change::Assign(value@),
            PatchOp::Remove => Change::Remove,
        }
    }
}

/// One step of a patch: a key and what happens to it.
#[derive(Debug, PartialEq, Eq)]
pub struct PatchEntry {
    pub key: String,
    pub op: PatchOp,
}

impl View for PatchEntry {
    type V = (Seq<char>, Change);

    open spec fn view(&self) -> (Seq<char>, Change) {
        (self.key@, self.op@)
    }
}

/// A partial update: steps applied in order, so that the last step on a key decides.
#[derive(Debug, PartialEq, Eq)]
pub struct SimpleUserSettingsPatch {
    pub entries: Vec<PatchEntry>,
}

impl View for SimpleUserSettingsPatch {
    type V = Seq<(Seq<char>, Change)>;

    open spec fn view(&self) -> Seq<(Seq<char>, Change)> {
        Seq::new(self.entries@.len(), |i: int| self.entries@[i]@)
    }
}

impl SimpleUserSettingsPatch {
    /// The patch that changes nothing.
    pub fn new() -> (patch: SimpleUserSettingsPatch)
        ensures
            patch@ == Seq::<(Seq<char>, Change)>::empty(),
    {
        SimpleUserSettingsPatch { entries: Vec::new() }
    }

    /// This patch followed by a step that writes `value` for `key`.
    pub fn set(self, key: String, value: String) -> (patch: SimpleUserSettingsPatch)
        ensures
            patch@ == self@.push((key@, Change::Assign(value@))),
    {
        let mut entries = self.entries;
        entries.push(PatchEntry { key, op: PatchOp::Assign(value) });
        SimpleUserSettingsPatch { entries }
    }

    /// This patch followed by a step that deletes `key`.
    pub fn remove(self, key: String) -> (patch: SimpleUserSettingsPatch)
        ensures
            patch@ == self@.push((key@, Change::Remove)),
    {
        let mut entries = self.entries;
        entries.push(PatchEntry { key, op: PatchOp::Remove });
        SimpleUserSettingsPatch { entries }
    }
}

/// The mapping after one change to `key`.
pub open spec fn changed(fields: Map<Seq<char>, Seq<char>>, key: Seq<char>, change: Change) -> Map<
    Seq<char>,
    Seq<char>,
> {
    match change {
        Change::Assign(value) => fields.insert(key, value),
        Change::Remove => fields.remove(key),
    }
}

/// The last change that `steps` make to `key`, if they make any.
pub open spec fn last_change(steps: Seq<(Seq<char>, Change)>, key: Seq<char>) -> Option<Change>
    decreases steps.len(),
{
    if steps.len() == 0 {
        None
    } else if steps.last().0 == key {
        Some(steps.last().1)
    } else {
        last_change(steps.drop_last(), key)
    }
}

/// The mapping after a patch: for each key the last step on it decides, and a
/// key that no step names stays as it was.
pub open spec fn patched(fields: Map<Seq<char>, Seq<char>>, steps: Seq<(Seq<char>, Change)>) -> Map<
    Seq<char>,
    Seq<char>,
> {
    Map::new(
        |k: Seq<char>|
            match last_change(steps, k) {
                Some(Change::Assign(_)) => true,
                Some(Change::Remove) => false,
                None => fields.contains_key(k),
            },
        |k: Seq<char>|
            match last_change(steps, k) {
                Some(Change::Assign(value)) => value,
                _ => fields[k],
            },
    )
}

/// Applying one more step is one more change to the patched mapping.
pub proof fn lemma_patched_push(
    fields: Map<Seq<char>, Seq<char>>,
    steps: Seq<(Seq<char>, Change)>,
    key: Seq<char>,
    change: Change,
)
    ensures
        patched(fields, steps.push((key, change))) == changed(patched(fields, steps), key, change),
{
    let longer = steps.push((key, change));
    assert(longer.drop_last() =~= steps);
    assert forall|k: Seq<char>| last_change(longer, k) == (if k == key {
        Some(change)
    } else {
        last_change(steps, k)
    }) by {}
}

/// The empty patch changes nothing.
pub proof fn lemma_patched_empty(fields: Map<Seq<char>, Seq<char>>)
    ensures
        patched(fields, Seq::empty()) == fields,
{
}

} // verus!
