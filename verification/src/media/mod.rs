//! Media (MPRIS) service configuration.
pub mod builder;
