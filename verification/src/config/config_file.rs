//! The configuration file as the service reads it.
use vstd::prelude::*;

verus! {

/// How old backups are handled.
#[derive(Clone, Debug)]
pub enum BackupStrategy {
    KeepEverything,
    KeepLastN(u32),
}

#[derive(Clone, Debug)]
pub struct Backup {
    /// Defines how we should handle the backup.
    pub strategy: BackupStrategy,
    /// List of the folders that are backed up.
    pub backup_path: Vec<String>,
}

#[derive(Clone, Debug)]
pub struct Minio {
    /// Access Key
    pub access_key: String,
    /// Secret Key
    pub secret_key: String,
    pub endpoint: String,
    pub region: String,
}

#[derive(Clone, Debug)]
pub struct Storage {
    /// Bucket the backups are stored in. If it is empty,
    /// the service creates one.
    pub backup_path: String,
    /// Minio settings, if Minio is the object store.
    pub minio: Option<Minio>,
}

#[derive(Clone, Debug)]
pub struct Config {
    pub backup: Backup,
    pub storage: Storage,
}

} // verus!
