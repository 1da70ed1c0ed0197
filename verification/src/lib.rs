//! Infuse: a small document-ingestion service. This library holds its
//! verified core: identifier parsing and formatting, content digests and
//! storage paths, the job scheduler, and the decisions behind each reply.

pub mod decimal;
pub mod digest;
pub mod models;
pub mod processing;
pub mod replies;
pub mod server;
pub mod storage;
pub mod upload;
