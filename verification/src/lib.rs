//! The management plane of a storage daemon: the registry of its pools, the objects under
//! which the pools are addressed on the message bus, and the operations that the daemon
//! answers there.
//!
//! `dbus_api` holds the state of the service and its operations, `engine` the pools and
//! their registry, `tree` the objects on the bus, `message` the values that travel in calls
//! and replies. `shape` states what holds of every call and reply whatever the operation.

pub mod dbus_api;
pub mod dbus_consts;
pub mod decimal;
pub mod engine;
pub mod message;
pub mod names;
pub mod shape;
pub mod signature;
pub mod tree;
pub mod types;
