//! A replica's local store: tasks, the operation log, the working set and the sync
//! metadata, behind transactions, held in memory or in an SQLite database.

pub mod bytes;
pub mod errors;
pub mod ids;
pub mod inmemory;
pub mod json;
pub mod kv;
pub mod modification;
pub mod opcodec;
pub mod operation;
pub mod replica;
pub mod rows;
pub mod sql;
pub mod sqlite;
pub mod statements;
pub mod storage;
pub mod taskmap;
pub mod tasks;
pub mod usage;
pub mod viewmap;
pub mod views;
pub mod viewset;
pub mod working_set;

pub use crate::errors::StorageError;
pub use crate::ids::{Uuid, VersionId, DEFAULT_BASE_VERSION};
pub use crate::inmemory::InMemoryStorage;
pub use crate::operation::Operation;
pub use crate::sqlite::SqliteStorage;
pub use crate::storage::{Storage, StorageTxn};
pub use crate::taskmap::{taskmap_with, TaskMap};
