//! Shared resources of the bot backend: one messaging-API client behind a
//! reference count and one pool of database connections, bundled in
//! `Components`, which every unit of work holds a clone of.

pub mod components;
pub mod settings;

pub use components::{Components, ComponentsError, DbConnection, DbPool, PoolUsage, TelegramApi};
pub use settings::PoolSettings;
