//! A local run queue for containers: entries are submitted to a shared
//! queue and admitted for execution one at a time, in submission order,
//! while containers started outside the queue remain observable.

pub mod client;
pub mod dispatcher;
pub mod domain;
pub mod errors;
pub mod list_containers;
pub mod state;
