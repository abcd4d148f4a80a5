//! An in-memory stand-in for the outside stores: a cache of hashes, the
//! reverse-lookup index, the drain queue and the durable store of payment
//! attempts, each with the behaviour the storage router relies on.

pub mod backend;
pub mod facts;


pub mod state;
