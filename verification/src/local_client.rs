//! The in-process client: each call works on the service in force when it starts.

use std::sync::Arc;
use vstd::prelude::*;
use crate::errors::SettingsError;
use crate::module::SettingsModule;
use crate::repository::{Records, SettingsRepository};
use crate::service::{
    current_fields, get_outcome, patch_outcome, touched_within_limit, update_outcome, within_limit,
    Service,
};
use crate::settings::{
    patched, Change, OwnerId, SimpleUserSettings, SimpleUserSettingsPatch, SimpleUserSettingsUpdate,
};

verus! {

/// The result of a call that found no service: `NotInitialized`.
pub open spec fn refused(res: Result<SimpleUserSettings, SettingsError>) -> bool {
    res matches Err(SettingsError::NotInitialized)
}

/// Reads the settings of `owner` with the service of `snapshot`. Without a
/// service the call fails with `NotInitialized`.
pub fn get_settings_on<R: SettingsRepository>(
    snapshot: &Option<Arc<Service>>,
    repo: &R,
    owner: OwnerId,
) -> (res: Result<SimpleUserSettings, SettingsError>)
    ensures
        res matches Err(SettingsError::Storage(e)) ==> repo.reports(e),
        match snapshot {
            None => refused(res),
            Some(service) => get_outcome(repo.reachable(), repo.records(), owner, res) && (
            repo.reachable() ==> res is Ok),
        },
{
    match snapshot {
        None => Err(SettingsError::NotInitialized),
        Some(service) => service.get_settings(repo, owner),
    }
}

/// Replaces the settings of `owner` under the rules of the service of
/// `snapshot`. Without a service the call fails with `NotInitialized` and
/// writes nothing.
pub fn update_settings_on<R: SettingsRepository>(
    snapshot: &Option<Arc<Service>>,
    repo: &mut R,
    owner: OwnerId,
    update: SimpleUserSettingsUpdate,
) -> (res: Result<SimpleUserSettings, SettingsError>)
    ensures
        final(repo).reachable() == old(repo).reachable(),
        res matches Err(SettingsError::Storage(e)) ==> old(repo).reports(e),
        match snapshot {
            None => refused(res) && final(repo).records() == old(repo).records(),
            Some(service) => {
                &&& update_outcome(
                    service.limit(),
                    old(repo).reachable(),
                    old(repo).records(),
                    final(repo).records(),
                    owner,
                    update.fields@,
                    res,
                )
                &&& old(repo).reachable() ==> (res is Ok <==> within_limit(
                    update.fields@,
                    service.limit(),
                ))
            },
        },
{
    match snapshot {
        None => Err(SettingsError::NotInitialized),
        Some(service) => service.update_settings(repo, owner, update),
    }
}

/// Patches the settings of `owner` under the rules of the service of
/// `snapshot`. Without a service the call fails with `NotInitialized` and
/// writes nothing.
pub fn patch_settings_on<R: SettingsRepository>(
    snapshot: &Option<Arc<Service>>,
    repo: &mut R,
    owner: OwnerId,
    patch: &SimpleUserSettingsPatch,
) -> (res: Result<SimpleUserSettings, SettingsError>)
    ensures
        final(repo).reachable() == old(repo).reachable(),
        res matches Err(SettingsError::Storage(e)) ==> old(repo).reports(e),
        match snapshot {
            None => refused(res) && final(repo).records() == old(repo).records(),
            Some(service) => {
                &&& patch_outcome(
                    service.limit(),
                    old(repo).reachable(),
                    old(repo).records(),
                    final(repo).records(),
                    owner,
                    patch@,
                    res,
                )
                &&& old(repo).reachable() ==> (res is Ok <==> touched_within_limit(
                    patched(current_fields(old(repo).records(), owner), patch@),
                    patch@,
                    service.limit(),
                ))
            },
        },
{
    match snapshot {
        None => Err(SettingsError::NotInitialized),
        Some(service) => service.patch_settings(repo, owner, patch),
    }
}

/// What a read through the client may return: a refusal, or what one service
/// instance returns.
pub open spec fn client_get_outcome(
    reachable: bool,
    records: Records,
    owner: OwnerId,
    res: Result<SimpleUserSettings, SettingsError>,
) -> bool {
    refused(res) || get_outcome(reachable, records, owner, res)
}

/// What a replacement through the client may return and leave in the store: a
/// refusal with nothing written, or what one service instance, with one
/// limit for all values, returns and leaves.
pub open spec fn client_update_outcome(
    reachable: bool,
    before: Records,
    after: Records,
    owner: OwnerId,
    fields: Map<Seq<char>, Seq<char>>,
    res: Result<SimpleUserSettings, SettingsError>,
) -> bool {
    ||| refused(res) && after == before
    ||| exists|limit: nat| #[trigger] update_outcome(limit, reachable, before, after, owner, fields, res)
}

/// What a patch through the client may return and leave in the store: a
/// refusal with nothing written, or what one service instance, with one
/// limit for all values, returns and leaves.
pub open spec fn client_patch_outcome(
    reachable: bool,
    before: Records,
    after: Records,
    owner: OwnerId,
    steps: Seq<(Seq<char>, Change)>,
    res: Result<SimpleUserSettings, SettingsError>,
) -> bool {
    ||| refused(res) && after == before
    ||| exists|limit: nat| #[trigger] patch_outcome(limit, reachable, before, after, owner, steps, res)
}

/// The operations that a settings client offers, whichever way it reaches
/// the service.
pub trait SimpleUserSettingsClient {
    /// Reads the settings of `owner`.
    fn get_settings<R: SettingsRepository>(&self, repo: &R, owner: OwnerId) -> (res: Result<
        SimpleUserSettings,
        SettingsError,
    >)
        ensures
            client_get_outcome(repo.reachable(), repo.records(), owner, res),
            res matches Err(SettingsError::Storage(e)) ==> repo.reports(e),
    ;

    /// Replaces all settings of `owner`.
    fn update_settings<R: SettingsRepository>(
        &self,
        repo: &mut R,
        owner: OwnerId,
        update: SimpleUserSettingsUpdate,
    ) -> (res: Result<SimpleUserSettings, SettingsError>)
        ensures
            client_update_outcome(
                old(repo).reachable(),
                old(repo).records(),
                final(repo).records(),
                owner,
                update.fields@,
                res,
            ),
            res matches Err(SettingsError::Storage(e)) ==> old(repo).reports(e),
            final(repo).reachable() == old(repo).reachable(),
    ;

    /// Applies a patch to the settings of `owner`.
    fn patch_settings<R: SettingsRepository>(
        &self,
        repo: &mut R,
        owner: OwnerId,
        patch: &SimpleUserSettingsPatch,
    ) -> (res: Result<SimpleUserSettings, SettingsError>)
        ensures
            client_patch_outcome(
                old(repo).reachable(),
                old(repo).records(),
                final(repo).records(),
                owner,
                patch@,
                res,
            ),
            res matches Err(SettingsError::Storage(e)) ==> old(repo).reports(e),
            final(repo).reachable() == old(repo).reachable(),
    ;
}

/// The client that in-process callers use. It holds no service of its own:
/// each call takes the instance in force when it starts and keeps to it.
pub struct LocalClient {
    module: Arc<SettingsModule>,
}

impl LocalClient {
    /// The holder from which this client takes the service for each call.
    pub closed spec fn module(&self) -> SettingsModule {
        *self.module
    }

    /// A client of the given holder: every call of it takes its service from
    /// `module`, and from nowhere else.
    pub fn new(module: Arc<SettingsModule>) -> (client: LocalClient)
        ensures
            client.module() == *module,
    {
        LocalClient { module }
    }
}

impl SimpleUserSettingsClient for LocalClient {
    fn get_settings<R: SettingsRepository>(&self, repo: &R, owner: OwnerId) -> (res: Result<
        SimpleUserSettings,
        SettingsError,
    >) {
        let snapshot = self.module.current();
        get_settings_on(&snapshot, repo, owner)
    }

    fn update_settings<R: SettingsRepository>(
        &self,
        repo: &mut R,
        owner: OwnerId,
        update: SimpleUserSettingsUpdate,
    ) -> (res: Result<SimpleUserSettings, SettingsError>) {
        let snapshot = self.module.current();
        update_settings_on(&snapshot, repo, owner, update)
    }

    fn patch_settings<R: SettingsRepository>(
        &self,
        repo: &mut R,
        owner: OwnerId,
        patch: &SimpleUserSettingsPatch,
    ) -> (res: Result<SimpleUserSettings, SettingsError>) {
        let snapshot = self.module.current();
        patch_settings_on(&snapshot, repo, owner, patch)
    }
}

} // verus!
