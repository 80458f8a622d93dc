//! The core of an operator console: one background job at a time, its status
//! kept in four records, and the state shown to clients.
//!
//! - `command`: the job's status records, launching, resetting and polling;
//! - `record`: the text formats of the invocation and exit-status records;
//! - `shared`: the state shown to clients and the callbacks they send;
//! - `cluster`: probing the cluster's hosts one at a time;
//! - `args`: the choice of the token secret.
pub mod args;
pub mod cluster;
pub mod command;
pub mod record;
pub mod shared;
