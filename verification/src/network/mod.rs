//! Network service: which device carries the primary connection.
pub mod monitoring;
