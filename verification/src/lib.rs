//! Replication and transfer rules for keeping a small state snapshot (a
//! validator's tower file) available to a standby.
//!
//! The producer pushes the snapshot over a secure stream to a waiting standby
//! and copies it, together with a freshness record, into a durable key-value
//! store. The standby tries both sources at once and commits at most one of
//! them to its destination file.
//!
//! Nothing in this crate performs I/O. Every component is a set of decisions:
//! a state and an event go in, the next state and the action to perform come
//! out, and the caller performs the action and reports what happened.

pub mod accept;
pub mod arbitration;
pub mod cloudflare;
pub mod decimal;
pub mod fallback;
pub mod metadata;
pub mod push;
pub mod replication;
pub mod store;
pub mod transport;
pub mod trust;
