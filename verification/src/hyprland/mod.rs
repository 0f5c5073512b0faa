//! Hyprland compositor: identifiers, request parameters, start-up discovery and
//! the event-socket protocol.
pub mod discovery;
pub mod events;
pub mod types;
