//! Gateway logic between an HTTP front end and pooled FastCGI workers.
//!
//! The crate holds what the gateway decides and computes: which file a
//! request names, the meta-variables that describe it to a worker, the HTTP
//! response that a worker's output stands for, when a pooled connection
//! counts as broken, and the answer to a request that failed. Sockets, files
//! and tasks are the caller's.

pub mod header;
pub mod manager;
pub mod params;
pub mod request;
pub mod response;
pub mod service;
pub mod text;
