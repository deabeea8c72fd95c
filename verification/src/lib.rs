//! Hold My Backup: the decisions of a backup service that packs folders
//! into tarballs, ships them to an S3-compatible object store and answers a
//! small HTTP API, stated and proved with Verus.
pub mod backup;
pub mod config;
pub mod http;
pub mod log;
pub mod storage;
pub mod text;
