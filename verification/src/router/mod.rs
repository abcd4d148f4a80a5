//! The storage router. Every operation on payment attempts is a short
//! conversation with the outside stores: the router says what to ask of the
//! cache, the reverse-lookup index, the drain queue or the durable store,
//! and decides from each answer what to ask next or what to hand to the
//! caller.

pub mod find;
pub mod insert;
pub mod laws;
pub mod listing;
pub mod protocol;
pub mod store;
pub mod update;
