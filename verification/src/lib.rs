//! Per-user settings store: the settings service core.
//!
//! A [`Service`] reads, replaces and patches the settings of an owner in a
//! [`SettingsRepository`] under its validation rules. A [`SettingsModule`]
//! holds the service that is in force and lets it be replaced at run time. A
//! [`LocalClient`] gives in-process callers the same operations on whatever
//! service is in force when a call starts.
//!
//! Every operation borrows the store for the time of the call, so its
//! contract says what the store holds afterwards. A host whose store cannot be
//! borrowed that way takes the decisions alone, from [`Service::plan_update`]
//! and [`Service::plan_patch`], and does the reading and writing itself.

pub mod errors;
pub mod fields;
pub mod laws;
pub mod local_client;
pub mod module;
pub mod repository;
pub mod service;
pub mod settings;

pub use errors::{SettingsError, StorageError};
pub use fields::Fields;
pub use local_client::{LocalClient, SimpleUserSettingsClient};
pub use module::{SettingsConfig, SettingsModule};
pub use repository::{MemoryRepository, SettingsRepository};
pub use service::{Service, ServiceConfig};
pub use settings::{
    OwnerId, PatchEntry, PatchOp, SimpleUserSettings, SimpleUserSettingsPatch,
    SimpleUserSettingsUpdate,
};
