//! A local mirror of a remote accessibility tree: element identities, node
//! snapshots, the store that holds them, and the rules that assemble a
//! snapshot from what a remote element answered.

pub mod builder;
pub mod cache;
pub mod errors;
pub mod identity;
pub mod item;
pub mod laws;
pub mod odilia_event;
pub mod odilia_object;
pub mod views;

pub use builder::{
    accessible_to_cache_item, atspi_cache_item_to_odilia_cache_item, ExternalCacheItem,
    RemoteAccessible, SnapshotParts,
};
pub use cache::{Cache, Request};
pub use errors::{AccessiblePrimitiveConversionError, CacheError, ConfigError, OdiliaError};
pub use identity::{AccessibleId, Identity};
pub use item::{copy_into_cache_item, CacheItem};
