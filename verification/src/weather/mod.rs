//! Weather: reading Open-Meteo timestamps and locating the current hour.
pub mod parse;
