//! What holds of the service's operations taken together.
//!
//! Each law speaks of the outcomes that the operations' contracts promise, so
//! it holds of every store that keeps the contract of
//! [`SettingsRepository`](crate::repository::SettingsRepository). Where a law
//! needs the store to answer, it says so: a store that cannot be reached fails
//! a call whatever the call is.

use vstd::prelude::*;
use crate::errors::SettingsError;
use crate::repository::Records;
use crate::service::{
    current_fields, get_outcome, patch_outcome, touches, update_outcome, within_limit,
};
use crate::settings::{last_change, patched, Change, OwnerId, SimpleUserSettings};

verus! {

/// Reading the settings of an owner who has no record returns no fields, and
/// it is no error: on a store that answers the read succeeds.
pub proof fn law_read_without_record(
    reachable: bool,
    records: Records,
    owner: OwnerId,
    res: Result<SimpleUserSettings, SettingsError>,
)
    requires
        !records.contains_key(owner),
        get_outcome(reachable, records, owner, res),
    ensures
        reachable ==> res is Ok,
        res is Ok ==> res->Ok_0@.owner_id == owner && res->Ok_0@.fields == Map::<
            Seq<char>,
            Seq<char>,
        >::empty(),
{
}

/// A replacement is refused exactly when some value is over the limit, and on
/// a store that answers it succeeds exactly when none is. When it fails
/// nothing is written: a read after it returns what the store held before.
pub proof fn law_update_all_or_nothing(
    limit: nat,
    reachable: bool,
    before: Records,
    after: Records,
    owner: OwnerId,
    fields: Map<Seq<char>, Seq<char>>,
    res: Result<SimpleUserSettings, SettingsError>,
    read: Result<SimpleUserSettings, SettingsError>,
)
    requires
        update_outcome(limit, reachable, before, after, owner, fields, res),
        get_outcome(reachable, after, owner, read),
    ensures
        res matches Err(SettingsError::Validation { .. }) <==> !within_limit(fields, limit),
        reachable ==> (res is Ok <==> within_limit(fields, limit)),
        res is Err ==> after == before,
        res is Err && read is Ok ==> read->Ok_0@.fields == current_fields(before, owner),
{
}

/// A patch applied to its own result changes nothing.
pub proof fn law_patched_twice(fields: Map<Seq<char>, Seq<char>>, steps: Seq<(Seq<char>, Change)>)
    ensures
        patched(patched(fields, steps), steps) == patched(fields, steps),
{
}

/// Some step changes a key exactly when some step names it.
pub proof fn lemma_last_change_touches(steps: Seq<(Seq<char>, Change)>, key: Seq<char>)
    ensures
        last_change(steps, key) is Some <==> touches(steps, key),
    decreases steps.len(),
{
    if steps.len() > 0 {
        let shorter = steps.drop_last();
        lemma_last_change_touches(shorter, key);
        if steps.last().0 != key && touches(steps, key) {
            let i = choose|i: int| 0 <= i < steps.len() && #[trigger] steps[i].0 == key;
            assert(shorter[i].0 == key);
        }
    }
}

/// Patch idempotence: when the same patch is applied twice and both
/// applications succeed, the second returns what the first returned and leaves
/// the store as the first left it. On a store that answers, the second
/// application succeeds exactly when the first did, and the store after both
/// is the store after the first.
pub proof fn law_patch_idempotent(
    limit: nat,
    reachable: bool,
    before: Records,
    once: Records,
    twice: Records,
    owner: OwnerId,
    steps: Seq<(Seq<char>, Change)>,
    first: Result<SimpleUserSettings, SettingsError>,
    second: Result<SimpleUserSettings, SettingsError>,
)
    requires
        patch_outcome(limit, reachable, before, once, owner, steps, first),
        patch_outcome(limit, reachable, once, twice, owner, steps, second),
    ensures
        first is Ok ==> twice == once,
        first is Ok && second is Ok ==> second->Ok_0@ == first->Ok_0@,
        reachable ==> twice == once && (first is Ok <==> second is Ok),
{
    if first is Ok {
        law_patched_twice(current_fields(before, owner), steps);
    }
}

/// Round trip: when a replacement and the read that follows it both succeed,
/// the read returns exactly the fields that were written. On a store that
/// answers, both succeed whenever every value is within the limit.
pub proof fn law_round_trip(
    limit: nat,
    reachable: bool,
    before: Records,
    after: Records,
    owner: OwnerId,
    fields: Map<Seq<char>, Seq<char>>,
    written: Result<SimpleUserSettings, SettingsError>,
    read: Result<SimpleUserSettings, SettingsError>,
)
    requires
        update_outcome(limit, reachable, before, after, owner, fields, written),
        get_outcome(reachable, after, owner, read),
    ensures
        written is Ok && read is Ok ==> read->Ok_0@.owner_id == owner && read->Ok_0@.fields
            == fields && read->Ok_0@ == written->Ok_0@,
        reachable && within_limit(fields, limit) ==> written is Ok && read is Ok,
{
}

/// Merge per key: a patch leaves every key that it does not name as it was,
/// gives every key whose last step assigns a value that value, and drops
/// every key whose last step removes it.
pub proof fn law_patch_merges_per_key(
    fields: Map<Seq<char>, Seq<char>>,
    steps: Seq<(Seq<char>, Change)>,
    key: Seq<char>,
)
    ensures
        !touches(steps, key) ==> (patched(fields, steps).contains_key(key) <==> fields.contains_key(
            key,
        )),
        !touches(steps, key) && fields.contains_key(key) ==> patched(fields, steps)[key]
            == fields[key],
        last_change(steps, key) matches Some(Change::Assign(value)) ==> patched(
            fields,
            steps,
        ).contains_key(key) && patched(fields, steps)[key] == value,
        last_change(steps, key) == Some(Change::Remove) ==> !patched(fields, steps).contains_key(key),
{
    lemma_last_change_touches(steps, key);
}

/// No key appears by itself: every key of a patched field set was there
/// before or is named by a step of the patch.
pub proof fn law_keys_come_from_writes(
    fields: Map<Seq<char>, Seq<char>>,
    steps: Seq<(Seq<char>, Change)>,
    key: Seq<char>,
)
    requires
        patched(fields, steps).contains_key(key),
    ensures
        fields.contains_key(key) || touches(steps, key),
{
    lemma_last_change_touches(steps, key);
}

/// A replacement leaves the records of every other owner alone.
pub proof fn law_update_touches_one_owner(
    limit: nat,
    reachable: bool,
    before: Records,
    after: Records,
    owner: OwnerId,
    other: OwnerId,
    fields: Map<Seq<char>, Seq<char>>,
    res: Result<SimpleUserSettings, SettingsError>,
)
    requires
        other != owner,
        update_outcome(limit, reachable, before, after, owner, fields, res),
    ensures
        after.contains_key(other) == before.contains_key(other),
        before.contains_key(other) ==> after[other] == before[other],
{
}

/// A patch leaves the records of every other owner alone.
pub proof fn law_patch_touches_one_owner(
    limit: nat,
    reachable: bool,
    before: Records,
    after: Records,
    owner: OwnerId,
    other: OwnerId,
    steps: Seq<(Seq<char>, Change)>,
    res: Result<SimpleUserSettings, SettingsError>,
)
    requires
        other != owner,
        patch_outcome(limit, reachable, before, after, owner, steps, res),
    ensures
        after.contains_key(other) == before.contains_key(other),
        before.contains_key(other) ==> after[other] == before[other],
{
}

} // verus!
