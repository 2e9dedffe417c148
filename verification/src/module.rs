//! The holder of the published service instance, and what a host does with it.

use std::sync::Arc;
use arc_swap::ArcSwapOption;
use vstd::prelude::*;
use crate::errors::SettingsError;
use crate::service::{Service, ServiceConfig};

verus! {

/// The cell that holds the published service, or nothing before the first
/// publication: an `arc_swap::ArcSwapOption`. It is read and replaced
/// atomically through a shared reference, so what a read finds depends on what
/// other threads stored. The contracts below say what a cell was made with
/// and nothing of what it holds afterwards.
#[verifier::external_body]
pub struct ServiceSlot {
    held: ArcSwapOption<Service>,
}

/// What a cell was made with: the argument that `arc_swap::ArcSwapAny::new`
/// was given for it. This is fixed when the cell is made and says nothing of
/// what the cell holds once something was stored in it.
pub uninterp spec fn slot_made_with(slot: ServiceSlot) -> Option<Arc<Service>>;

/// `arc_swap::ArcSwapAny::new`: a new cell that starts out holding `service`.
#[verifier::external_body]
fn slot_new(service: Option<Arc<Service>>) -> (slot: ServiceSlot)
    ensures
        slot_made_with(slot) == service,
{
    ServiceSlot { held: ArcSwapOption::new(service) }
}

/// `arc_swap::ArcSwapAny::load_full`: a pointer of its own to whatever the
/// cell holds at the moment of the call. Nothing is claimed of which instance
/// that is.
#[verifier::external_body]
fn slot_load(slot: &ServiceSlot) -> (held: Option<Arc<Service>>) {
    slot.held.load_full()
}

/// `arc_swap::ArcSwapAny::store`: replaces what the cell holds, in one atomic
/// step.
#[verifier::external_body]
fn slot_store(slot: &ServiceSlot, service: Option<Arc<Service>>) {
    slot.held.store(service)
}

/// `Arc::clone`: another pointer to the same instance.
#[verifier::external_body]
fn share(service: &Arc<Service>) -> (shared: Arc<Service>)
    ensures
        shared == service,
{
    Arc::clone(service)
}

/// What the host configures: the largest number of bytes that one value may have.
#[derive(Clone, Copy, Debug, PartialEq, Eq, Structural)]
pub struct SettingsConfig {
    pub max_field_length: usize,
}

/// Holds the service instance that is in force and lets it be replaced while
/// calls are in flight.
///
/// A caller takes a snapshot with [`SettingsModule::current`] once and uses it
/// for the whole of one operation. A later publication does not reach that
/// snapshot.
pub struct SettingsModule {
    service: ServiceSlot,
}

impl Default for SettingsModule {
    /// A holder with nothing published.
    fn default() -> (module: SettingsModule)
        ensures
            module.made_with() is None,
    {
        SettingsModule::holding(None)
    }
}

impl Clone for SettingsModule {
    /// A holder of its own that starts with the instance this one holds at
    /// the moment of the call.
    fn clone(&self) -> (copy: SettingsModule) {
        SettingsModule::holding(self.current())
    }
}

/// The service to work with, or the error of a call that came before any
/// publication.
pub fn require_service(snapshot: Option<Arc<Service>>) -> (res: Result<Arc<Service>, SettingsError>)
    ensures
        match snapshot {
            Some(service) => res == Ok::<Arc<Service>, SettingsError>(service),
            None => res == Err::<Arc<Service>, SettingsError>(SettingsError::NotInitialized),
        },
{
    match snapshot {
        Some(service) => Ok(service),
        None => Err(SettingsError::NotInitialized),
    }
}

impl SettingsModule {
    /// What this holder started out with: nothing, or the instance it was
    /// made to hold. A later publication does not change it.
    pub closed spec fn made_with(&self) -> Option<Arc<Service>> {
        slot_made_with(self.service)
    }

    /// A holder that starts out with `snapshot`: with nothing published where
    /// it is `None`, with that instance in force where it is `Some`.
    pub fn holding(snapshot: Option<Arc<Service>>) -> (module: SettingsModule)
        ensures
            module.made_with() == snapshot,
    {
        SettingsModule { service: slot_new(snapshot) }
    }

    /// Puts `service` in force for every snapshot taken from now on.
    pub fn publish(&self, service: Arc<Service>) {
        slot_store(&self.service, Some(service));
    }

    /// The instance in force at the moment of the call, if one was published.
    pub fn current(&self) -> (snapshot: Option<Arc<Service>>) {
        slot_load(&self.service)
    }

    /// The instance in force, or `NotInitialized` before the first publication.
    pub fn service(&self) -> (res: Result<Arc<Service>, SettingsError>)
        ensures
            res is Err ==> res == Err::<Arc<Service>, SettingsError>(SettingsError::NotInitialized),
    {
        require_service(self.current())
    }

    /// Builds the service for `config`, publishes it, and returns it.
    pub fn init(&self, config: &SettingsConfig) -> (service: Arc<Service>)
        ensures
            service.limit() == config.max_field_length,
    {
        let rules = ServiceConfig { max_field_length: config.max_field_length };
        let service = Arc::new(Service::new(rules));
        self.publish(share(&service));
        service
    }
}

} // verus!
