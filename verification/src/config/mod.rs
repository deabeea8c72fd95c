//! Settings of the service, as read from its configuration file.
pub mod args;
pub mod config_file;

use vstd::prelude::*;

verus! {

/// How old backups are handled.
#[derive(Clone, Debug)]
pub enum BackupStrategy {
    KeepEverything,
    KeepLastN(u32),
}

#[derive(Clone, Debug)]
pub struct Backup {
    /// Defines how we should handle the backup.
    pub strategy: BackupStrategy,
    /// List of the folders that are backed up.
    pub backup_path: Vec<String>,
}

#[derive(Clone, Debug)]
pub struct Minio {
    /// Access Key
    pub access_key: String,
    /// Secret Key
    pub secret_key: String,
}

#[derive(Clone, Debug)]
pub struct Storage {
    /// Bucket the backups are stored in.
    pub backup_path: String,
    /// Minio settings, if Minio is the object store.
    pub minio: Option<Minio>,
}

/// The configuration of the first file layout, with the log verbosity in
/// it; a file may leave the verbosity out.
#[derive(Clone, Debug)]
pub struct Config {
    pub backup: Backup,
    pub storage: Storage,
    pub verbosity: Option<String>,
}

/// Command-line options of the first layout: the HTTP address alone.
#[derive(Clone, Debug)]
pub struct Opt {
    /// HTTP Server address
    pub address: String,
}

} // verus!
