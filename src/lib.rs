//! A content-addressed file store: the decisions behind uploading, naming and
//! deleting files, proved against their contracts.

pub mod digest;
pub mod access;
pub mod names;
pub mod sink;
pub mod storage;
pub mod upload;
mod text;
