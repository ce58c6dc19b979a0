//! Storage backend adapters.
//!
//! Each concrete storage implementation is wrapped in a uniform newtype
//! with a constructor that reports failure instead of panicking, and the
//! newtypes are unified in the `JavaStorageEngine` union.  The engine's
//! backend kind is fixed at construction and never changes; the
//! execution core's lock predicate relies on `kind`.

use vstd::prelude::*;

use gluesql_json_storage::JsonStorage;
use gluesql_memory_storage::MemoryStorage;
use gluesql_redb_storage::RedbStorage;
use gluesql_shared_memory_storage::SharedMemoryStorage;
use gluesql_sled_storage::SledStorage;

use crate::error::JavaGlueSQLError;

verus! {

#[verifier::external_type_specification]
#[verifier::external_body]
pub struct ExMemoryStorage(MemoryStorage);

#[verifier::external_type_specification]
#[verifier::external_body]
pub struct ExSharedMemoryStorage(SharedMemoryStorage);

#[verifier::external_type_specification]
#[verifier::external_body]
pub struct ExJsonStorage(JsonStorage);

#[verifier::external_type_specification]
#[verifier::external_body]
pub struct ExSledStorage(SledStorage);

#[verifier::external_type_specification]
#[verifier::external_body]
pub struct ExRedbStorage(RedbStorage);

pub struct JavaMemoryStorage(pub MemoryStorage);

impl JavaMemoryStorage {
    /// Relies on `MemoryStorage::default`: builds a fresh, empty
    /// in-memory store; it cannot fail.
    #[verifier::external_body]
    pub fn new() -> Self {
        JavaMemoryStorage(MemoryStorage::default())
    }
}

pub struct JavaSharedMemoryStorage(pub SharedMemoryStorage);

impl JavaSharedMemoryStorage {
    /// Relies on `SharedMemoryStorage::new`: builds a fresh store shared
    /// behind a reference-counted lock; it cannot fail.
    #[verifier::external_body]
    pub fn new() -> Self {
        JavaSharedMemoryStorage(SharedMemoryStorage::new())
    }
}

pub struct JavaJsonStorage(pub JsonStorage);

impl JavaJsonStorage {
    /// Relies on `JsonStorage::new`: creates the directory at `path` and
    /// opens a store over it; a filesystem failure is returned as an
    /// error.
    #[verifier::external_body]
    pub fn new(path: String) -> Result<Self, JavaGlueSQLError> {
        match JsonStorage::new(&path) {
            Ok(storage) => Ok(JavaJsonStorage(storage)),
            Err(e) => Err(JavaGlueSQLError::new(format!("Failed to create JsonStorage: {}", e))),
        }
    }
}

pub struct JavaSledStorage(pub SledStorage);

impl JavaSledStorage {
    /// Relies on `SledStorage::new`: opens (or creates) the on-disk tree
    /// at `path`; an I/O or format failure is returned as an error.
    #[verifier::external_body]
    pub fn new(path: String) -> Result<Self, JavaGlueSQLError> {
        match SledStorage::new(&path) {
            Ok(storage) => Ok(JavaSledStorage(storage)),
            Err(e) => Err(JavaGlueSQLError::new(format!("Failed to create SledStorage: {}", e))),
        }
    }
}

pub struct JavaRedbStorage(pub RedbStorage);

impl JavaRedbStorage {
    /// Relies on `RedbStorage::new`: opens (or creates) the database file
    /// at `path`; an I/O or format failure is returned as an error.
    #[verifier::external_body]
    pub fn new(path: String) -> Result<Self, JavaGlueSQLError> {
        match RedbStorage::new(&path) {
            Ok(storage) => Ok(JavaRedbStorage(storage)),
            Err(e) => Err(JavaGlueSQLError::new(format!("Failed to create RedbStorage: {}", e))),
        }
    }
}

/// The closed union of storage backends: exactly one kind is active per
/// engine instance.
pub enum JavaStorageEngine {
    Memory(JavaMemoryStorage),
    SharedMemory(JavaSharedMemoryStorage),
    Json(JavaJsonStorage),
    Sled(JavaSledStorage),
    Redb(JavaRedbStorage),
}

/// A backend kind tag.
#[derive(PartialEq, Eq, Structural, Clone, Copy, Debug)]
pub enum EngineKind {
    Memory,
    SharedMemory,
    Json,
    Sled,
    Redb,
}

impl JavaStorageEngine {
    /// The backend kind of this engine.
    pub open spec fn kind(&self) -> EngineKind {
        match self {
            JavaStorageEngine::Memory(_) => EngineKind::Memory,
            JavaStorageEngine::SharedMemory(_) => EngineKind::SharedMemory,
            JavaStorageEngine::Json(_) => EngineKind::Json,
            JavaStorageEngine::Sled(_) => EngineKind::Sled,
            JavaStorageEngine::Redb(_) => EngineKind::Redb,
        }
    }
}

} // verus!
