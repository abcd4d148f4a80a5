//! Consistency and scheduling core of a payment switch: a storage router
//! that writes payment attempts either straight to the durable store or
//! cache-first with durable replication through a drain queue, and a
//! stream-based task scheduler.
//!
//! The cache, the durable store, the task queue and the workflows are
//! outside. What is here are the decisions between the calls to them, as
//! functions from where an operation stands and what was answered to where
//! it stands next and what it asks next, each with a contract; an in-memory
//! stand-in for the stores, against which every operation can be run to
//! its end; and what holds of the two together, proved:
//!
//! - `router`: inserting, updating and finding payment attempts, and the
//!   laws of uniqueness, reverse lookup, read fallback and drain ordering;
//! - `memory`: the in-memory stores;
//! - `scheduler`: the consumer loop, the polling cycle, the claim of tasks, the
//!   execution of a task, and the laws of exclusivity and graceful shutdown;
//! - `domain`, `storage`, `convert`: payment attempts on the domain side and
//!   on the storage side, and the conversion between them;
//! - `connector`: the adapter for the Square connector;
//! - `customers`, `webhooks`: customer operations and incoming webhooks.

pub mod clock;
pub mod connector;
pub mod convert;
pub mod customers;
pub mod domain;
pub mod enums;
pub mod errors;
pub mod json;
pub mod kv;
pub mod memory;
pub mod reverse_lookup;
pub mod router;
pub mod scheduler;
pub mod search;
pub mod storage;
pub mod text;
pub mod webhooks;
