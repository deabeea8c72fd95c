//! Object stores the backups are shipped to.
pub mod bucket;
pub mod clock;
pub mod minio;
pub mod model;

use crate::config::config_file::Config;
use vstd::prelude::*;

verus! {

/// An object store that can be set up from the configuration.
pub trait ObjectStorage: Sized {
    /// The store that `cfg` describes.
    fn init(cfg: &Config) -> Result<Self, StorageError>;
}

/// Why an object store operation is refused.
#[derive(Clone, Debug)]
pub enum StorageError {
    /// The configuration names no Minio store.
    MissingMinioConfig,
    /// The bucket to create is there already.
    BucketAlreadyExists,
}

impl StorageError {
    /// The message the operation fails with.
    pub fn message(&self) -> (m: String)
        ensures
            m@ == (match self {
                StorageError::MissingMinioConfig => "Trying to create minio without a configuration."@,
                StorageError::BucketAlreadyExists => "Bucket already exists."@,
            }),
    {
        match self {
            StorageError::MissingMinioConfig => String::from_str(
                "Trying to create minio without a configuration.",
            ),
            StorageError::BucketAlreadyExists => String::from_str("Bucket already exists."),
        }
    }
}

} // verus!
