use std::sync::Arc;

use simple_user_settings::errors::{SettingsError, StorageError};
use simple_user_settings::fields::Fields;
use simple_user_settings::local_client::{
    get_settings_on, patch_settings_on, update_settings_on, LocalClient, SimpleUserSettingsClient,
};
use simple_user_settings::module::{SettingsConfig, SettingsModule};
use simple_user_settings::repository::{MemoryRepository, SettingsRepository};
use simple_user_settings::service::{
    check_patch, check_update, fits, merge, settings_after_write, settings_from_lookup,
    validate_field, Service, ServiceConfig,
};
use simple_user_settings::settings::{
    OwnerId, PatchEntry, PatchOp, SimpleUserSettings, SimpleUserSettingsPatch,
    SimpleUserSettingsUpdate,
};

fn text(s: &str) -> String {
    s.to_string()
}

fn fields_of(pairs: &[(&str, &str)]) -> Fields {
    let mut fields = Fields::new();
    for (key, value) in pairs {
        fields.set(text(key), text(value));
    }
    fields
}

fn update_of(pairs: &[(&str, &str)]) -> SimpleUserSettingsUpdate {
    SimpleUserSettingsUpdate { fields: fields_of(pairs) }
}

fn service_with_limit(max_field_length: usize) -> Service {
    Service::new(ServiceConfig { max_field_length })
}

fn switched_off() -> StorageError {
    StorageError { reason: text("store is switched off") }
}

const ALICE: OwnerId = OwnerId(1);
const BOB: OwnerId = OwnerId(2);

#[test]
fn get_settings_without_a_record_is_empty_and_no_error() {
    let service = service_with_limit(10);
    let repo = MemoryRepository::new();
    for raw in [0u128, 1, 7, u128::MAX] {
        let owner = OwnerId(raw);
        let settings = service.get_settings(&repo, owner).expect("no record is no error");
        assert_eq!(settings.owner_id, owner);
        assert!(settings.fields.is_empty());
    }
    assert_eq!(repo.len(), 0);
}

#[test]
fn update_within_the_limit_is_written_and_returned() {
    let service = service_with_limit(5);
    let mut repo = MemoryRepository::new();
    let saved = service
        .update_settings(&mut repo, ALICE, update_of(&[("theme", "dark"), ("language", "en")]))
        .expect("values fit");
    assert_eq!(
        saved,
        SimpleUserSettings { owner_id: ALICE, fields: fields_of(&[("theme", "dark"), ("language", "en")]) }
    );
    assert_eq!(repo.len(), 1);
}

#[test]
fn update_at_exactly_the_limit_passes_and_one_more_byte_fails() {
    let service = service_with_limit(4);
    let mut repo = MemoryRepository::new();
    assert!(service.update_settings(&mut repo, ALICE, update_of(&[("theme", "dark")])).is_ok());
    let res = service.update_settings(&mut repo, ALICE, update_of(&[("theme", "light")]));
    assert_eq!(res, Err(SettingsError::Validation { field: text("theme"), max_length: 4 }));
}

#[test]
fn update_with_one_long_value_writes_nothing() {
    let service = service_with_limit(4);
    let mut repo = MemoryRepository::new();
    service.update_settings(&mut repo, ALICE, update_of(&[("theme", "dark")])).expect("fits");
    let res = service.update_settings(
        &mut repo,
        ALICE,
        update_of(&[("language", "en"), ("theme", "solarized"), ("font", "mono")]),
    );
    assert_eq!(res, Err(SettingsError::Validation { field: text("theme"), max_length: 4 }));
    let after = service.get_settings(&repo, ALICE).expect("readable");
    assert_eq!(after.fields, fields_of(&[("theme", "dark")]));
}

#[test]
fn rejected_first_update_leaves_no_record() {
    let service = service_with_limit(2);
    let mut repo = MemoryRepository::new();
    let res = service.update_settings(&mut repo, ALICE, update_of(&[("theme", "dark")]));
    assert!(matches!(res, Err(SettingsError::Validation { .. })));
    assert_eq!(repo.len(), 0);
    assert!(service.get_settings(&repo, ALICE).expect("readable").fields.is_empty());
}

#[test]
fn length_is_counted_in_bytes() {
    assert!(fits("", 0));
    assert!(!fits("a", 0));
    assert!(fits("abc", 3));
    assert!(!fits("abcd", 3));
    // two characters, four bytes
    assert!(!fits("\u{e9}\u{e9}", 3));
    assert!(fits("\u{e9}\u{e9}", 4));
    let service = service_with_limit(3);
    let mut repo = MemoryRepository::new();
    let res = service.update_settings(&mut repo, ALICE, update_of(&[("name", "\u{e9}\u{e9}")]));
    assert_eq!(res, Err(SettingsError::Validation { field: text("name"), max_length: 3 }));
}

#[test]
fn update_replaces_the_whole_field_set() {
    let service = service_with_limit(10);
    let mut repo = MemoryRepository::new();
    service.update_settings(&mut repo, ALICE, update_of(&[("a", "1"), ("b", "2")])).expect("fits");
    service.update_settings(&mut repo, ALICE, update_of(&[("c", "3")])).expect("fits");
    let after = service.get_settings(&repo, ALICE).expect("readable");
    assert_eq!(after.fields, fields_of(&[("c", "3")]));
}

#[test]
fn update_with_no_fields_creates_an_empty_record() {
    let service = service_with_limit(0);
    let mut repo = MemoryRepository::new();
    let saved = service.update_settings(&mut repo, ALICE, update_of(&[])).expect("nothing to check");
    assert!(saved.fields.is_empty());
    assert_eq!(repo.len(), 1);
}

#[test]
fn round_trip_returns_exactly_what_was_written() {
    let service = service_with_limit(16);
    let mut repo = MemoryRepository::new();
    let written = [("theme", "dark"), ("language", "en"), ("", ""), ("tz", "Europe/Berlin")];
    service.update_settings(&mut repo, ALICE, update_of(&written)).expect("fits");
    let read = service.get_settings(&repo, ALICE).expect("readable");
    assert_eq!(read, SimpleUserSettings { owner_id: ALICE, fields: fields_of(&written) });
    assert_eq!(read.fields.len(), 4);
}

#[test]
fn owners_do_not_see_each_other() {
    let service = service_with_limit(16);
    let mut repo = MemoryRepository::new();
    service.update_settings(&mut repo, ALICE, update_of(&[("theme", "dark")])).expect("fits");
    service.update_settings(&mut repo, BOB, update_of(&[("theme", "light")])).expect("fits");
    assert_eq!(service.get_settings(&repo, ALICE).expect("readable").fields, fields_of(&[("theme", "dark")]));
    assert_eq!(service.get_settings(&repo, BOB).expect("readable").fields, fields_of(&[("theme", "light")]));
    assert_eq!(repo.len(), 2);
}

#[test]
fn patch_merges_into_the_existing_fields() {
    let service = service_with_limit(10);
    let mut repo = MemoryRepository::new();
    service.update_settings(&mut repo, ALICE, update_of(&[("a", "1"), ("b", "2")])).expect("fits");
    let patch = SimpleUserSettingsPatch::new().set(text("b"), text("3")).set(text("c"), text("4"));
    let saved = service.patch_settings(&mut repo, ALICE, &patch).expect("fits");
    assert_eq!(saved.fields, fields_of(&[("a", "1"), ("b", "3"), ("c", "4")]));
    assert_eq!(service.get_settings(&repo, ALICE).expect("readable"), saved);
}

#[test]
fn patch_with_a_removal_deletes_the_key() {
    let service = service_with_limit(10);
    let mut repo = MemoryRepository::new();
    service.update_settings(&mut repo, ALICE, update_of(&[("a", "1"), ("b", "2")])).expect("fits");
    let patch = SimpleUserSettingsPatch::new().remove(text("a"));
    let saved = service.patch_settings(&mut repo, ALICE, &patch).expect("nothing to check");
    assert_eq!(saved.fields, fields_of(&[("b", "2")]));
    assert_eq!(service.get_settings(&repo, ALICE).expect("readable").fields, fields_of(&[("b", "2")]));
}

#[test]
fn patch_on_an_owner_without_a_record_starts_from_nothing() {
    let service = service_with_limit(10);
    let mut repo = MemoryRepository::new();
    let patch = SimpleUserSettingsPatch::new().set(text("theme"), text("dark")).remove(text("gone"));
    let saved = service.patch_settings(&mut repo, ALICE, &patch).expect("fits");
    assert_eq!(saved, SimpleUserSettings { owner_id: ALICE, fields: fields_of(&[("theme", "dark")]) });
    assert_eq!(repo.len(), 1);
}

#[test]
fn patch_applied_twice_is_the_same_as_once() {
    let service = service_with_limit(10);
    let mut repo = MemoryRepository::new();
    service.update_settings(&mut repo, ALICE, update_of(&[("a", "1"), ("b", "2")])).expect("fits");
    let patch = SimpleUserSettingsPatch::new()
        .set(text("b"), text("3"))
        .remove(text("a"))
        .set(text("c"), text("4"))
        .set(text("c"), text("5"));
    let once = service.patch_settings(&mut repo, ALICE, &patch).expect("fits");
    let twice = service.patch_settings(&mut repo, ALICE, &patch).expect("fits");
    assert_eq!(once, twice);
    assert_eq!(twice.fields, fields_of(&[("b", "3"), ("c", "5")]));
    assert_eq!(service.get_settings(&repo, ALICE).expect("readable"), once);
}

#[test]
fn last_step_on_a_key_wins() {
    let patch = SimpleUserSettingsPatch::new()
        .set(text("a"), text("1"))
        .set(text("a"), text("2"))
        .remove(text("b"))
        .set(text("b"), text("9"))
        .set(text("c"), text("3"))
        .remove(text("c"));
    let merged = merge(fields_of(&[("b", "0"), ("d", "4")]), &patch);
    assert_eq!(merged, fields_of(&[("a", "2"), ("b", "9"), ("d", "4")]));
}

#[test]
fn empty_patch_changes_nothing() {
    let merged = merge(fields_of(&[("a", "1")]), &SimpleUserSettingsPatch::new());
    assert_eq!(merged, fields_of(&[("a", "1")]));
}

#[test]
fn patch_with_a_long_value_writes_nothing() {
    let service = service_with_limit(3);
    let mut repo = MemoryRepository::new();
    service.update_settings(&mut repo, ALICE, update_of(&[("a", "1")])).expect("fits");
    let patch = SimpleUserSettingsPatch::new().set(text("b"), text("2")).set(text("c"), text("long"));
    let res = service.patch_settings(&mut repo, ALICE, &patch);
    assert_eq!(res, Err(SettingsError::Validation { field: text("c"), max_length: 3 }));
    assert_eq!(service.get_settings(&repo, ALICE).expect("readable").fields, fields_of(&[("a", "1")]));
}

#[test]
fn untouched_long_value_does_not_block_a_patch() {
    let generous = service_with_limit(100);
    let strict = service_with_limit(3);
    let mut repo = MemoryRepository::new();
    generous
        .update_settings(&mut repo, ALICE, update_of(&[("legacy", "far too long"), ("a", "1")]))
        .expect("fits the generous limit");
    let patch = SimpleUserSettingsPatch::new().set(text("a"), text("2"));
    let saved = strict.patch_settings(&mut repo, ALICE, &patch).expect("legacy is not named");
    assert_eq!(saved.fields, fields_of(&[("legacy", "far too long"), ("a", "2")]));
    let touching = SimpleUserSettingsPatch::new().set(text("legacy"), text("still long"));
    let res = strict.patch_settings(&mut repo, ALICE, &touching);
    assert_eq!(res, Err(SettingsError::Validation { field: text("legacy"), max_length: 3 }));
}

#[test]
fn overwritten_long_value_inside_a_patch_is_not_checked() {
    let service = service_with_limit(3);
    let mut repo = MemoryRepository::new();
    let patch = SimpleUserSettingsPatch::new()
        .set(text("a"), text("too long"))
        .set(text("a"), text("ok"))
        .set(text("b"), text("too long"))
        .remove(text("b"));
    let saved = service.patch_settings(&mut repo, ALICE, &patch).expect("what results fits");
    assert_eq!(saved.fields, fields_of(&[("a", "ok")]));
}

#[test]
fn patch_can_be_built_from_entries() {
    let patch = SimpleUserSettingsPatch {
        entries: vec![
            PatchEntry { key: text("a"), op: PatchOp::Assign(text("1")) },
            PatchEntry { key: text("b"), op: PatchOp::Remove },
        ],
    };
    let built = SimpleUserSettingsPatch::new().set(text("a"), text("1")).remove(text("b"));
    assert_eq!(patch, built);
}

#[test]
fn check_update_names_a_field_that_is_too_long() {
    assert_eq!(check_update(&fields_of(&[("a", "12"), ("b", "123")]), 3), Ok(()));
    assert_eq!(check_update(&fields_of(&[]), 0), Ok(()));
    assert_eq!(
        check_update(&fields_of(&[("a", "12"), ("b", "1234")]), 3),
        Err(SettingsError::Validation { field: text("b"), max_length: 3 })
    );
}

#[test]
fn check_patch_looks_only_at_named_keys() {
    let merged = fields_of(&[("a", "12345"), ("b", "1")]);
    let naming_b = SimpleUserSettingsPatch::new().set(text("b"), text("1"));
    let naming_a = SimpleUserSettingsPatch::new().set(text("a"), text("12345"));
    let naming_gone = SimpleUserSettingsPatch::new().remove(text("z"));
    assert_eq!(check_patch(&merged, &naming_b, 3), Ok(()));
    assert_eq!(check_patch(&merged, &naming_gone, 3), Ok(()));
    assert_eq!(
        check_patch(&merged, &naming_a, 3),
        Err(SettingsError::Validation { field: text("a"), max_length: 3 })
    );
}

#[test]
fn validate_field_reports_field_and_limit() {
    assert_eq!(validate_field("theme", "light", 5), Ok(()));
    assert_eq!(
        validate_field("theme", "lights", 5),
        Err(SettingsError::Validation { field: text("theme"), max_length: 5 })
    );
    assert_eq!(validate_field("", "", 0), Ok(()));
    assert_eq!(service_with_limit(5).max_field_length(), 5);
}

#[test]
fn lookup_results_become_settings() {
    let record = SimpleUserSettings { owner_id: ALICE, fields: fields_of(&[("a", "1")]) };
    assert_eq!(settings_from_lookup(ALICE, Ok(Some(record.clone()))), Ok(record));
    assert_eq!(settings_from_lookup(BOB, Ok(None)), Ok(SimpleUserSettings::empty(BOB)));
    assert_eq!(
        settings_from_lookup(ALICE, Err(StorageError { reason: text("disk on fire") })),
        Err(SettingsError::Storage(StorageError { reason: text("disk on fire") }))
    );
}

#[test]
fn write_results_become_settings() {
    let saved = SimpleUserSettings { owner_id: ALICE, fields: fields_of(&[("a", "1")]) };
    assert_eq!(settings_after_write(saved.clone(), Ok(())), Ok(saved.clone()));
    assert_eq!(
        settings_after_write(saved, Err(StorageError { reason: text("disk on fire") })),
        Err(SettingsError::Storage(StorageError { reason: text("disk on fire") }))
    );
}

#[test]
fn unreachable_store_fails_every_operation_and_keeps_its_records() {
    let service = service_with_limit(10);
    let mut repo = MemoryRepository::new();
    service.update_settings(&mut repo, ALICE, update_of(&[("a", "1")])).expect("fits");
    repo.set_reachable(false);
    assert_eq!(service.get_settings(&repo, ALICE), Err(SettingsError::Storage(switched_off())));
    assert_eq!(
        service.update_settings(&mut repo, ALICE, update_of(&[("a", "2")])),
        Err(SettingsError::Storage(switched_off()))
    );
    let patch = SimpleUserSettingsPatch::new().set(text("a"), text("3"));
    assert_eq!(service.patch_settings(&mut repo, ALICE, &patch), Err(SettingsError::Storage(switched_off())));
    repo.set_reachable(true);
    assert_eq!(service.get_settings(&repo, ALICE).expect("readable").fields, fields_of(&[("a", "1")]));
}

#[test]
fn validation_comes_before_the_store_is_asked() {
    let service = service_with_limit(2);
    let mut repo = MemoryRepository::new();
    repo.set_reachable(false);
    let res = service.update_settings(&mut repo, ALICE, update_of(&[("a", "123")]));
    assert_eq!(res, Err(SettingsError::Validation { field: text("a"), max_length: 2 }));
}

#[test]
fn memory_repository_gets_what_was_upserted() {
    let mut repo = MemoryRepository::new();
    assert_eq!(repo.get(ALICE), Ok(None));
    assert_eq!(repo.upsert(ALICE, fields_of(&[("a", "1")])), Ok(()));
    assert_eq!(repo.upsert(ALICE, fields_of(&[("b", "2")])), Ok(()));
    assert_eq!(
        repo.get(ALICE),
        Ok(Some(SimpleUserSettings { owner_id: ALICE, fields: fields_of(&[("b", "2")]) }))
    );
    assert_eq!(repo.get(BOB), Ok(None));
    assert_eq!(repo.len(), 1);
    repo.set_reachable(false);
    assert_eq!(repo.get(ALICE), Err(switched_off()));
    assert_eq!(repo.upsert(BOB, fields_of(&[])), Err(switched_off()));
    assert_eq!(repo.len(), 1);
}

#[test]
fn client_calls_before_the_first_publication_are_refused() {
    let module = Arc::new(SettingsModule::default());
    let client = LocalClient::new(module.clone());
    let mut repo = MemoryRepository::new();
    assert_eq!(client.get_settings(&repo, ALICE), Err(SettingsError::NotInitialized));
    assert_eq!(
        client.update_settings(&mut repo, ALICE, update_of(&[("a", "1")])),
        Err(SettingsError::NotInitialized)
    );
    let patch = SimpleUserSettingsPatch::new().set(text("a"), text("1"));
    assert_eq!(client.patch_settings(&mut repo, ALICE, &patch), Err(SettingsError::NotInitialized));
    assert_eq!(repo.len(), 0);
}

#[test]
fn client_works_once_a_service_is_published() {
    let module = Arc::new(SettingsModule::default());
    let client = LocalClient::new(module.clone());
    let mut repo = MemoryRepository::new();
    module.init(&SettingsConfig { max_field_length: 4 });
    let saved = client.update_settings(&mut repo, ALICE, update_of(&[("theme", "dark")])).expect("fits");
    assert_eq!(client.get_settings(&repo, ALICE), Ok(saved));
    let patch = SimpleUserSettingsPatch::new().set(text("theme"), text("light"));
    assert_eq!(
        client.patch_settings(&mut repo, ALICE, &patch),
        Err(SettingsError::Validation { field: text("theme"), max_length: 4 })
    );
}

#[test]
fn client_follows_the_latest_publication() {
    let module = Arc::new(SettingsModule::default());
    let client = LocalClient::new(module.clone());
    let mut repo = MemoryRepository::new();
    module.init(&SettingsConfig { max_field_length: 2 });
    assert!(client.update_settings(&mut repo, ALICE, update_of(&[("theme", "dark")])).is_err());
    module.init(&SettingsConfig { max_field_length: 8 });
    assert!(client.update_settings(&mut repo, ALICE, update_of(&[("theme", "dark")])).is_ok());
}

#[test]
fn operation_keeps_to_the_service_it_started_with() {
    let module = SettingsModule::default();
    module.publish(Arc::new(service_with_limit(3)));
    let started_with = module.current();
    module.publish(Arc::new(service_with_limit(100)));
    let mut repo = MemoryRepository::new();
    let res = update_settings_on(&started_with, &mut repo, ALICE, update_of(&[("a", "1"), ("b", "12345")]));
    assert_eq!(res, Err(SettingsError::Validation { field: text("b"), max_length: 3 }));
    assert_eq!(repo.len(), 0);
    let now = module.current();
    let res = update_settings_on(&now, &mut repo, ALICE, update_of(&[("a", "1"), ("b", "12345")]));
    assert!(res.is_ok());
}

#[test]
fn operations_on_a_missing_snapshot_are_refused() {
    let mut repo = MemoryRepository::new();
    assert_eq!(get_settings_on(&None, &repo, ALICE), Err(SettingsError::NotInitialized));
    assert_eq!(
        update_settings_on(&None, &mut repo, ALICE, update_of(&[("a", "1")])),
        Err(SettingsError::NotInitialized)
    );
    let patch = SimpleUserSettingsPatch::new().remove(text("a"));
    assert_eq!(patch_settings_on(&None, &mut repo, ALICE, &patch), Err(SettingsError::NotInitialized));
    assert_eq!(repo.len(), 0);
}

#[test]
fn operations_on_a_snapshot_use_its_service() {
    let snapshot = Some(Arc::new(service_with_limit(5)));
    let mut repo = MemoryRepository::new();
    let saved = update_settings_on(&snapshot, &mut repo, ALICE, update_of(&[("a", "12345")])).expect("fits");
    assert_eq!(get_settings_on(&snapshot, &repo, ALICE), Ok(saved));
    let patch = SimpleUserSettingsPatch::new().set(text("a"), text("123456"));
    assert_eq!(
        patch_settings_on(&snapshot, &mut repo, ALICE, &patch),
        Err(SettingsError::Validation { field: text("a"), max_length: 5 })
    );
}

#[test]
fn empty_settings_have_the_owner_and_no_fields() {
    let settings = SimpleUserSettings::empty(BOB);
    assert_eq!(settings.owner_id, BOB);
    assert_eq!(settings.fields.len(), 0);
}

#[test]
fn crate_root_names_the_public_types() {
    let module = Arc::new(simple_user_settings::SettingsModule::default());
    let client = simple_user_settings::LocalClient::new(module.clone());
    let mut repo = simple_user_settings::MemoryRepository::new();
    module.publish(Arc::new(simple_user_settings::Service::new(simple_user_settings::ServiceConfig {
        max_field_length: 3,
    })));
    let update = simple_user_settings::SimpleUserSettingsUpdate { fields: fields_of(&[("a", "123")]) };
    let saved = client.update_settings(&mut repo, simple_user_settings::OwnerId(9), update).expect("fits");
    assert_eq!(saved.owner_id, OwnerId(9));
    assert_eq!(saved.fields.get("a"), Some(&text("123")));
}

#[test]
fn plan_update_hands_the_fields_on_or_refuses() {
    let service = service_with_limit(3);
    assert_eq!(service.plan_update(update_of(&[("a", "123"), ("b", "")])), Ok(fields_of(&[("a", "123"), ("b", "")])));
    assert_eq!(service.plan_update(update_of(&[])), Ok(Fields::new()));
    assert_eq!(
        service.plan_update(update_of(&[("a", "1234")])),
        Err(SettingsError::Validation { field: text("a"), max_length: 3 })
    );
}

#[test]
fn plan_patch_merges_into_the_record_or_refuses() {
    let service = service_with_limit(3);
    let record = SimpleUserSettings { owner_id: ALICE, fields: fields_of(&[("a", "1"), ("b", "2")]) };
    let patch = SimpleUserSettingsPatch::new().set(text("b"), text("3")).set(text("c"), text("4"));
    assert_eq!(service.plan_patch(Some(record.clone()), &patch), Ok(fields_of(&[("a", "1"), ("b", "3"), ("c", "4")])));
    assert_eq!(service.plan_patch(None, &patch), Ok(fields_of(&[("b", "3"), ("c", "4")])));
    let removal = SimpleUserSettingsPatch::new().remove(text("a"));
    assert_eq!(service.plan_patch(Some(record.clone()), &removal), Ok(fields_of(&[("b", "2")])));
    let too_long = SimpleUserSettingsPatch::new().set(text("b"), text("2222"));
    assert_eq!(
        service.plan_patch(Some(record), &too_long),
        Err(SettingsError::Validation { field: text("b"), max_length: 3 })
    );
}

#[test]
fn client_takes_its_service_from_the_holder_it_was_given() {
    let mine = Arc::new(SettingsModule::default());
    let other = Arc::new(SettingsModule::default());
    let client = LocalClient::new(mine.clone());
    let mut repo = MemoryRepository::new();
    other.init(&SettingsConfig { max_field_length: 100 });
    assert_eq!(client.get_settings(&repo, ALICE), Err(SettingsError::NotInitialized));
    mine.init(&SettingsConfig { max_field_length: 2 });
    assert_eq!(
        client.update_settings(&mut repo, ALICE, update_of(&[("a", "123")])),
        Err(SettingsError::Validation { field: text("a"), max_length: 2 })
    );
}
