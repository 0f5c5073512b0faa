//! Desktop notifications: the service builder and the freedesktop daemon's bookkeeping.
pub mod builder;
pub mod daemon;
