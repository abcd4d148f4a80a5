//! Adapters between the switch's own records and the wire formats of
//! payment connectors.

pub mod square;
pub mod types;
