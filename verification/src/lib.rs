//! Verified core of the Wayle desktop-shell services: event parsing, registries,
//! command planning and bookkeeping that the services run around their I/O.

pub mod audio;
pub mod cava;
pub mod hyprland;
pub mod media;
pub mod network;
pub mod notification;
pub mod systray;
pub mod text;
pub mod wallpaper;
pub mod weather;
